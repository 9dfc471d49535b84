//! What a warden holds against others.

use std::collections::HashMap;

use vstd::prelude::*;
use vstd::std_specs::iter::IteratorSpec;

verus! {

broadcast use vstd::std_specs::hash::group_hash_axioms;

/// How angry a warden is.
#[derive(Clone, Copy, Debug, PartialEq, Eq, Structural)]
pub enum AngerLevel {
    Calm,
    Agitated,
    Angry,
}

/// The sounds that a warden makes while it listens or roams.
#[derive(Clone, Copy, Debug, PartialEq, Eq, Structural)]
pub enum WardenSound {
    Ambient,
    Agitated,
    Angry,
    Listening,
    ListeningAngry,
}

/// The most that a warden holds against anyone.
pub const MAX_ANGER: i32 = 150;

/// How much anger passes at a time.
pub const DEFAULT_ANGER_DECREASE: i32 = 1;

/// Anger that has come down to this is over.
pub const EXHAUSTED_ANGER: i32 = 1;

impl AngerLevel {
    /// The least anger of the level.
    pub open spec fn spec_minimum_anger(self) -> int {
        match self {
            AngerLevel::Calm => 0,
            AngerLevel::Agitated => 40,
            AngerLevel::Angry => 80,
        }
    }

    /// The level of the anger: the highest whose least anger is reached.
    pub open spec fn spec_by_anger(anger: int) -> AngerLevel {
        if anger >= 80 {
            AngerLevel::Angry
        } else if anger >= 40 {
            AngerLevel::Agitated
        } else {
            AngerLevel::Calm
        }
    }

    /// The least anger of the level.
    pub fn minimum_anger(self) -> (r: i32)
        ensures
            r == self.spec_minimum_anger(),
    {
        match self {
            AngerLevel::Calm => 0,
            AngerLevel::Agitated => 40,
            AngerLevel::Angry => 80,
        }
    }

    /// The sound of a warden of the level that roams.
    pub fn ambient_sound(self) -> (r: WardenSound)
        ensures
            r == match self {
                AngerLevel::Calm => WardenSound::Ambient,
                AngerLevel::Agitated => WardenSound::Agitated,
                AngerLevel::Angry => WardenSound::Angry,
            },
    {
        match self {
            AngerLevel::Calm => WardenSound::Ambient,
            AngerLevel::Agitated => WardenSound::Agitated,
            AngerLevel::Angry => WardenSound::Angry,
        }
    }

    /// The sound of a warden of the level that listens.
    pub fn listening_sound(self) -> (r: WardenSound)
        ensures
            r == match self {
                AngerLevel::Calm => WardenSound::Listening,
                _ => WardenSound::ListeningAngry,
            },
    {
        match self {
            AngerLevel::Calm => WardenSound::Listening,
            AngerLevel::Agitated | AngerLevel::Angry => WardenSound::ListeningAngry,
        }
    }

    /// The level of the anger.
    pub fn by_anger(anger: i32) -> (r: Self)
        ensures
            r == Self::spec_by_anger(anger as int),
    {
        if anger >= AngerLevel::Angry.minimum_anger() {
            AngerLevel::Angry
        } else if anger >= AngerLevel::Agitated.minimum_anger() {
            AngerLevel::Agitated
        } else {
            AngerLevel::Calm
        }
    }

    /// Whether the level is the highest.
    pub fn is_angry(self) -> (r: bool)
        ensures
            r == (self == AngerLevel::Angry),
    {
        matches!(self, AngerLevel::Angry)
    }
}

/// Law: the level of an anger is the one whose least anger is reached while that of
/// the next is not, and more anger never lowers it.
pub proof fn law_level_fits_anger(anger: int, more: int)
    requires
        0 <= anger <= more,
    ensures
        AngerLevel::spec_by_anger(anger).spec_minimum_anger() <= anger,
        AngerLevel::spec_by_anger(anger) == AngerLevel::Calm ==> anger
            < AngerLevel::Agitated.spec_minimum_anger(),
        AngerLevel::spec_by_anger(anger) == AngerLevel::Agitated ==> anger
            < AngerLevel::Angry.spec_minimum_anger(),
        AngerLevel::spec_by_anger(anger).spec_minimum_anger() <= AngerLevel::spec_by_anger(
            more,
        ).spec_minimum_anger(),
        AngerLevel::spec_by_anger(AngerLevel::spec_by_anger(anger).spec_minimum_anger())
            == AngerLevel::spec_by_anger(anger),
{
}

/// Someone that a warden is angry at.
#[derive(Clone, Copy, Debug, PartialEq, Eq, Structural)]
pub struct Suspect {
    pub uuid: u128,
    pub anger: i32,
    pub is_player: bool,
}

// ---------------------------------------------------------------------------
// The order of suspects.
// ---------------------------------------------------------------------------

/// One suspect comes before another: those that the warden is truly angry at first,
/// then players, then by anger.
pub open spec fn comes_before(a: Suspect, b: Suspect) -> bool {
    let a_angry = AngerLevel::spec_by_anger(a.anger as int) == AngerLevel::Angry;
    let b_angry = AngerLevel::spec_by_anger(b.anger as int) == AngerLevel::Angry;
    if a_angry != b_angry {
        a_angry
    } else if a.is_player != b.is_player {
        a.is_player
    } else {
        a.anger > b.anger
    }
}

/// No suspect comes before one that stands ahead of it.
pub open spec fn is_sorted(suspects: Seq<Suspect>) -> bool {
    forall|i: int, j: int|
        0 <= i < j < suspects.len() ==> !comes_before(#[trigger] suspects[j], #[trigger] suspects[i])
}

/// Where a suspect goes in the list: ahead of the first that it comes before.
pub open spec fn place_in(suspects: Seq<Suspect>, suspect: Suspect) -> int
    decreases suspects.len(),
{
    if suspects.len() == 0 {
        0
    } else {
        let place = place_in(suspects.drop_last(), suspect);
        if place < suspects.len() - 1 {
            place
        } else if comes_before(suspect, suspects.last()) {
            suspects.len() - 1
        } else {
            suspects.len() as int
        }
    }
}

/// The suspects in their order. Of two that come neither before the other, the one
/// that stood ahead stays ahead.
pub open spec fn sorted(suspects: Seq<Suspect>) -> Seq<Suspect>
    decreases suspects.len(),
{
    if suspects.len() == 0 {
        suspects
    } else {
        let rest = sorted(suspects.drop_last());
        rest.insert(place_in(rest, suspects.last()), suspects.last())
    }
}

/// A suspect's place is the first whose suspect it comes before.
proof fn lemma_place_in(suspects: Seq<Suspect>, suspect: Suspect)
    ensures
        0 <= place_in(suspects, suspect) <= suspects.len(),
        forall|i: int|
            0 <= i < place_in(suspects, suspect) ==> !comes_before(suspect, #[trigger] suspects[i]),
        place_in(suspects, suspect) < suspects.len() ==> comes_before(
            suspect,
            suspects[place_in(suspects, suspect)],
        ),
    decreases suspects.len(),
{
    if suspects.len() > 0 {
        let rest = suspects.drop_last();
        lemma_place_in(rest, suspect);
        assert forall|i: int| 0 <= i < place_in(suspects, suspect) implies !comes_before(
            suspect,
            #[trigger] suspects[i],
        ) by {
            if i < rest.len() {
                assert(rest[i] == suspects[i]);
            }
        }
    }
}

/// Law: the suspects in their order are the same suspects, and they are in order.
pub proof fn law_sorted_is_sorted(suspects: Seq<Suspect>)
    ensures
        is_sorted(sorted(suspects)),
        sorted(suspects).to_multiset() == suspects.to_multiset(),
        sorted(suspects).len() == suspects.len(),
    decreases suspects.len(),
{
    broadcast use vstd::seq_lib::group_to_multiset_ensures;

    if suspects.len() > 0 {
        let rest = sorted(suspects.drop_last());
        let last = suspects.last();
        let place = place_in(rest, last);
        let all = sorted(suspects);
        law_sorted_is_sorted(suspects.drop_last());
        lemma_place_in(rest, last);
        assert forall|i: int, j: int| 0 <= i < j < all.len() implies !comes_before(
            #[trigger] all[j],
            #[trigger] all[i],
        ) by {
            let i2 = if i < place {
                i
            } else {
                i - 1
            };
            let j2 = if j < place {
                j
            } else {
                j - 1
            };
            if i == place {
                assert(all[i] == last);
                assert(all[j] == rest[j2]);
                assert(comes_before(last, rest[place]));
                if place < j2 {
                    assert(!comes_before(rest[j2], rest[place]));
                }
            } else if j == place {
                assert(all[j] == last);
                assert(all[i] == rest[i2]);
            } else {
                assert(all[i] == rest[i2]);
                assert(all[j] == rest[j2]);
            }
        }
        assert(rest.insert(place, last).to_multiset() =~= rest.to_multiset().insert(last)) by {
            vstd::seq_lib::to_multiset_insert(rest, place, last);
        }
        assert(suspects =~= suspects.drop_last().push(last));
        assert(suspects.to_multiset() =~= suspects.drop_last().to_multiset().insert(last));
    }
}

/// Whether one suspect comes before another.
fn precedes(a: &Suspect, b: &Suspect) -> (r: bool)
    ensures
        r == comes_before(*a, *b),
{
    let a_angry: bool = AngerLevel::by_anger(a.anger).is_angry();
    let b_angry: bool = AngerLevel::by_anger(b.anger).is_angry();
    if a_angry != b_angry {
        a_angry
    } else if a.is_player != b.is_player {
        a.is_player
    } else {
        a.anger > b.anger
    }
}

/// The greatest anger of the suspects, or 0 where there are none.
pub open spec fn greatest_anger(suspects: Seq<Suspect>) -> int
    decreases suspects.len(),
{
    if suspects.len() == 0 {
        0
    } else if suspects.len() == 1 {
        suspects[0].anger as int
    } else {
        let rest = greatest_anger(suspects.drop_last());
        if suspects.last().anger > rest {
            suspects.last().anger as int
        } else {
            rest
        }
    }
}

/// One of the suspects has the uuid.
pub open spec fn is_suspect(suspects: Seq<Suspect>, uuid: u128) -> bool {
    exists|i: int| 0 <= i < suspects.len() && #[trigger] suspects[i].uuid == uuid
}

/// No one is a suspect twice.
pub open spec fn rows_differ(suspects: Seq<Suspect>) -> bool {
    forall|i: int, j: int|
        0 <= i < j < suspects.len() ==> (#[trigger] suspects[i]).uuid != (
        #[trigger] suspects[j]).uuid
}

/// Each suspect has the anger that the table says.
pub open spec fn rows_agree(suspects: Seq<Suspect>, anger: Map<u128, i32>) -> bool {
    forall|i: int|
        0 <= i < suspects.len() ==> anger.contains_key((#[trigger] suspects[i]).uuid)
            && suspects[i].anger == anger[suspects[i].uuid]
}

/// Being put in order changes nothing of who is a suspect.
proof fn lemma_sorted_keeps(suspects: Seq<Suspect>)
    ensures
        sorted(suspects).len() == suspects.len(),
        forall|suspect: Suspect| #[trigger]
            sorted(suspects).contains(suspect) <==> suspects.contains(suspect),
        forall|uuid: u128| is_suspect(sorted(suspects), uuid) <==> is_suspect(suspects, uuid),
{
    broadcast use vstd::seq_lib::group_to_multiset_ensures;

    law_sorted_is_sorted(suspects);
    let all = sorted(suspects);
    assert forall|suspect: Suspect| #[trigger] all.contains(suspect) <==> suspects.contains(
        suspect,
    ) by {
        assert(all.contains(suspect) <==> all.to_multiset().count(suspect) > 0);
        assert(suspects.contains(suspect) <==> suspects.to_multiset().count(suspect) > 0);
    }
    assert forall|uuid: u128| is_suspect(all, uuid) <==> is_suspect(suspects, uuid) by {
        if is_suspect(all, uuid) {
            let i = choose|i: int| 0 <= i < all.len() && #[trigger] all[i].uuid == uuid;
            assert(all.contains(all[i]));
            assert(suspects.contains(all[i]));
            let j = choose|j: int| 0 <= j < suspects.len() && suspects[j] == all[i];
            assert(suspects[j].uuid == uuid);
        }
        if is_suspect(suspects, uuid) {
            let i = choose|i: int| 0 <= i < suspects.len() && #[trigger] suspects[i].uuid == uuid;
            assert(suspects.contains(suspects[i]));
            assert(all.contains(suspects[i]));
            let j = choose|j: int| 0 <= j < all.len() && all[j] == suspects[i];
            assert(all[j].uuid == uuid);
        }
    }
}

/// Being put in order makes no one a suspect twice, and changes no anger.
proof fn lemma_sorted_rows(suspects: Seq<Suspect>, anger: Map<u128, i32>)
    requires
        rows_differ(suspects),
        rows_agree(suspects, anger),
    ensures
        rows_differ(sorted(suspects)),
        rows_agree(sorted(suspects), anger),
    decreases suspects.len(),
{
    if suspects.len() > 0 {
        let before = suspects.drop_last();
        let last = suspects.last();
        let rest = sorted(before);
        let all = sorted(suspects);
        let place = place_in(rest, last);
        assert forall|i: int| 0 <= i < before.len() implies anger.contains_key(
            (#[trigger] before[i]).uuid,
        ) && before[i].anger == anger[before[i].uuid] by {
            assert(suspects[i] == before[i]);
        }
        assert forall|i: int, j: int| 0 <= i < j < before.len() implies (
        #[trigger] before[i]).uuid != (#[trigger] before[j]).uuid by {
            assert(suspects[i] == before[i] && suspects[j] == before[j]);
        }
        lemma_sorted_rows(before, anger);
        lemma_sorted_keeps(before);
        lemma_place_in(rest, last);
        assert(suspects[suspects.len() - 1] == last);
        assert(!is_suspect(before, last.uuid)) by {
            if is_suspect(before, last.uuid) {
                let i = choose|i: int|
                    0 <= i < before.len() && #[trigger] before[i].uuid == last.uuid;
                assert(suspects[i].uuid == last.uuid);
            }
        }
        assert(!is_suspect(rest, last.uuid));
        assert forall|i: int| 0 <= i < all.len() implies anger.contains_key(
            (#[trigger] all[i]).uuid,
        ) && all[i].anger == anger[all[i].uuid] by {
            if i < place {
                assert(all[i] == rest[i]);
            } else if i > place {
                assert(all[i] == rest[i - 1]);
            } else {
                assert(all[i] == last);
            }
        }
        assert forall|i: int, j: int| 0 <= i < j < all.len() implies (#[trigger] all[i]).uuid != (
        #[trigger] all[j]).uuid by {
            let i2 = if i < place {
                i
            } else {
                i - 1
            };
            let j2 = if j < place {
                j
            } else {
                j - 1
            };
            if i == place {
                assert(all[i] == last && all[j] == rest[j2]);
                assert(rest[j2].uuid != last.uuid);
            } else if j == place {
                assert(all[j] == last && all[i] == rest[i2]);
                assert(rest[i2].uuid != last.uuid);
            } else {
                assert(all[i] == rest[i2] && all[j] == rest[j2]);
            }
        }
    }
}

// ---------------------------------------------------------------------------
// The anger itself.
// ---------------------------------------------------------------------------

/// What a warden holds against others.
pub struct AngerManagement {
    anger_by_suspect: HashMap<u128, i32>,
    suspects: Vec<Suspect>,
    highest_anger: i32,
}

/// The place of the first suspect with the uuid.
pub open spec fn first_with(suspects: Seq<Suspect>, uuid: u128) -> Option<int>
    decreases suspects.len(),
{
    if suspects.len() == 0 {
        None
    } else {
        match first_with(suspects.drop_last(), uuid) {
            Some(i) => Some(i),
            None => if suspects.last().uuid == uuid {
                Some(suspects.len() - 1)
            } else {
                None
            },
        }
    }
}

/// The suspects with one of them noted anew, or added at the end.
pub open spec fn noted(suspects: Seq<Suspect>, suspect: Suspect) -> Seq<Suspect> {
    match first_with(suspects, suspect.uuid) {
        Some(i) => suspects.update(i, suspect),
        None => suspects.push(suspect),
    }
}

/// The suspects that are not the one with the uuid.
pub open spec fn others(suspects: Seq<Suspect>, uuid: u128) -> Seq<Suspect> {
    suspects.filter(|suspect: Suspect| suspect.uuid != uuid)
}

/// The suspects that are left, each with the anger that is left.
pub open spec fn remaining(suspects: Seq<Suspect>, anger: Map<u128, i32>) -> Seq<Suspect>
    decreases suspects.len(),
{
    if suspects.len() == 0 {
        suspects
    } else {
        let rest = remaining(suspects.drop_last(), anger);
        let last = suspects.last();
        if anger.contains_key(last.uuid) {
            rest.push(Suspect { anger: anger[last.uuid], ..last })
        } else {
            rest
        }
    }
}

/// The number kept between two others.
pub open spec fn clamped(number: int, low: int, high: int) -> int {
    if number < low {
        low
    } else if number > high {
        high
    } else {
        number
    }
}

/// The suspect that saved anger makes: its anger is kept between 0 and the limit, and it does
/// not count as a player.
pub open spec fn saved_row(uuid: u128, anger: i32) -> Suspect {
    Suspect { uuid, anger: clamped(anger as int, 0, MAX_ANGER as int) as i32, is_player: false }
}

/// The first suspect with a uuid is found, and there is none before it.
proof fn lemma_first_with(suspects: Seq<Suspect>, uuid: u128)
    ensures
        first_with(suspects, uuid) is Some <==> is_suspect(suspects, uuid),
        first_with(suspects, uuid) matches Some(i) ==> {
            &&& 0 <= i < suspects.len()
            &&& suspects[i].uuid == uuid
            &&& forall|j: int| 0 <= j < i ==> (#[trigger] suspects[j]).uuid != uuid
        },
    decreases suspects.len(),
{
    if suspects.len() > 0 {
        let rest = suspects.drop_last();
        lemma_first_with(rest, uuid);
        if first_with(rest, uuid) is Some {
            let i = first_with(rest, uuid)->0;
            assert(suspects[i].uuid == uuid);
            assert forall|j: int| 0 <= j < i implies (#[trigger] suspects[j]).uuid != uuid by {
                assert(rest[j] == suspects[j]);
            }
        } else {
            assert forall|j: int| 0 <= j < suspects.len() - 1 implies (
            #[trigger] suspects[j]).uuid != uuid by {
                assert(rest[j] == suspects[j]);
            }
            if suspects.last().uuid == uuid {
                assert(suspects[suspects.len() - 1].uuid == uuid);
            }
        }
    }
}

/// Those who are noted are suspects.
proof fn lemma_noted(suspects: Seq<Suspect>, suspect: Suspect)
    ensures
        forall|uuid: u128|
            is_suspect(noted(suspects, suspect), uuid) <==> is_suspect(suspects, uuid) || uuid
                == suspect.uuid,
{
    lemma_first_with(suspects, suspect.uuid);
    let after = noted(suspects, suspect);
    assert forall|uuid: u128|
        is_suspect(after, uuid) <==> is_suspect(suspects, uuid) || uuid == suspect.uuid by {
        let place = match first_with(suspects, suspect.uuid) {
            Some(i) => i,
            None => suspects.len() as int,
        };
        if is_suspect(suspects, uuid) {
            let i = choose|i: int| 0 <= i < suspects.len() && #[trigger] suspects[i].uuid == uuid;
            assert(after[i].uuid == uuid);
        }
        if uuid == suspect.uuid {
            assert(after[place].uuid == uuid);
        }
        if is_suspect(after, uuid) && uuid != suspect.uuid {
            let i = choose|i: int| 0 <= i < after.len() && #[trigger] after[i].uuid == uuid;
            assert(suspects[i].uuid == uuid);
        }
    }
}

/// Being noted makes no one a suspect twice.
proof fn lemma_noted_rows(suspects: Seq<Suspect>, suspect: Suspect, anger: Map<u128, i32>)
    requires
        rows_differ(suspects),
        rows_agree(suspects, anger),
    ensures
        rows_differ(noted(suspects, suspect)),
        rows_agree(noted(suspects, suspect), anger.insert(suspect.uuid, suspect.anger)),
{
    lemma_first_with(suspects, suspect.uuid);
    let after = noted(suspects, suspect);
    let told = anger.insert(suspect.uuid, suspect.anger);
    let place = match first_with(suspects, suspect.uuid) {
        Some(i) => i,
        None => suspects.len() as int,
    };
    assert forall|i: int| 0 <= i < suspects.len() && i != place implies (
    #[trigger] suspects[i]).uuid != suspect.uuid by {
        if first_with(suspects, suspect.uuid) is Some {
            assert(suspects[place].uuid == suspect.uuid);
        }
    }
    assert forall|i: int| 0 <= i < after.len() implies told.contains_key((#[trigger] after[i]).uuid)
        && after[i].anger == told[after[i].uuid] by {
        if i != place {
            assert(after[i] == suspects[i]);
        }
    }
    assert forall|i: int, j: int| 0 <= i < j < after.len() implies (#[trigger] after[i]).uuid != (
    #[trigger] after[j]).uuid by {
        if i != place {
            assert(after[i] == suspects[i]);
        }
        if j != place {
            assert(after[j] == suspects[j]);
        }
    }
}

/// Those who are left when one is gone are suspects once each, with their anger.
proof fn lemma_others_rows(suspects: Seq<Suspect>, gone: u128, anger: Map<u128, i32>)
    requires
        rows_differ(suspects),
        rows_agree(suspects, anger),
    ensures
        rows_differ(others(suspects, gone)),
        rows_agree(others(suspects, gone), anger.remove(gone)),
    decreases suspects.len(),
{
    reveal(Seq::filter);
    if suspects.len() > 0 {
        let before = suspects.drop_last();
        let last = suspects.last();
        let rest = others(before, gone);
        let all = others(suspects, gone);
        assert forall|i: int| 0 <= i < before.len() implies anger.contains_key(
            (#[trigger] before[i]).uuid,
        ) && before[i].anger == anger[before[i].uuid] by {
            assert(suspects[i] == before[i]);
        }
        assert forall|i: int, j: int| 0 <= i < j < before.len() implies (
        #[trigger] before[i]).uuid != (#[trigger] before[j]).uuid by {
            assert(suspects[i] == before[i] && suspects[j] == before[j]);
        }
        lemma_others_rows(before, gone, anger);
        lemma_others(before, gone);
        assert(suspects[suspects.len() - 1] == last);
        if last.uuid != gone {
            assert(all =~= rest.push(last));
            assert forall|i: int, j: int| 0 <= i < j < all.len() implies (
            #[trigger] all[i]).uuid != (#[trigger] all[j]).uuid by {
                assert(all[i] == rest[i]);
                if j == rest.len() {
                    assert(before.contains(rest[i]));
                    let k = choose|k: int| 0 <= k < before.len() && before[k] == rest[i];
                    assert(suspects[k] == before[k]);
                } else {
                    assert(all[j] == rest[j]);
                }
            }
            assert forall|i: int| 0 <= i < all.len() implies anger.remove(gone).contains_key(
                (#[trigger] all[i]).uuid,
            ) && all[i].anger == anger.remove(gone)[all[i].uuid] by {
                if i < rest.len() {
                    assert(all[i] == rest[i]);
                }
            }
        } else {
            assert(all =~= rest);
        }
    }
}

/// Those who are left when some anger has passed are suspects once each.
proof fn lemma_remaining_rows(suspects: Seq<Suspect>, anger: Map<u128, i32>)
    requires
        rows_differ(suspects),
    ensures
        rows_differ(remaining(suspects, anger)),
        rows_agree(remaining(suspects, anger), anger),
    decreases suspects.len(),
{
    if suspects.len() > 0 {
        let before = suspects.drop_last();
        let last = suspects.last();
        let rest = remaining(before, anger);
        let all = remaining(suspects, anger);
        assert forall|i: int, j: int| 0 <= i < j < before.len() implies (
        #[trigger] before[i]).uuid != (#[trigger] before[j]).uuid by {
            assert(suspects[i] == before[i] && suspects[j] == before[j]);
        }
        lemma_remaining_rows(before, anger);
        lemma_remaining(before, anger);
        assert(suspects[suspects.len() - 1] == last);
        if anger.contains_key(last.uuid) {
            assert forall|i: int, j: int| 0 <= i < j < all.len() implies (
            #[trigger] all[i]).uuid != (#[trigger] all[j]).uuid by {
                assert(all[i] == rest[i]);
                if j == rest.len() {
                    assert(rest[i].uuid == all[i].uuid);
                    assert(is_suspect(rest, all[i].uuid));
                    assert(is_suspect(before, all[i].uuid));
                    let k = choose|k: int|
                        0 <= k < before.len() && #[trigger] before[k].uuid == all[i].uuid;
                    assert(suspects[k] == before[k]);
                } else {
                    assert(all[j] == rest[j]);
                }
            }
            assert forall|i: int| 0 <= i < all.len() implies anger.contains_key(
                (#[trigger] all[i]).uuid,
            ) && all[i].anger == anger[all[i].uuid] by {
                if i < rest.len() {
                    assert(all[i] == rest[i]);
                }
            }
        }
    }
}

/// Those who are not the one are suspects still.
proof fn lemma_others(suspects: Seq<Suspect>, gone: u128)
    ensures
        forall|uuid: u128|
            is_suspect(others(suspects, gone), uuid) <==> is_suspect(suspects, uuid) && uuid
                != gone,
        forall|i: int|
            0 <= i < others(suspects, gone).len() ==> suspects.contains(
                #[trigger] others(suspects, gone)[i],
            ),
{
    broadcast use vstd::seq_lib::group_filter_ensures;

    let left = others(suspects, gone);
    assert forall|i: int| 0 <= i < left.len() implies suspects.contains(#[trigger] left[i]) by {
        assert(left.contains(left[i]));
        suspects.lemma_filter_contains_rev(|suspect: Suspect| suspect.uuid != gone, left[i]);
    }
    assert forall|uuid: u128|
        is_suspect(left, uuid) <==> is_suspect(suspects, uuid) && uuid != gone by {
        if is_suspect(left, uuid) {
            let i = choose|i: int| 0 <= i < left.len() && #[trigger] left[i].uuid == uuid;
            assert(suspects.contains(left[i]));
            let j = choose|j: int| 0 <= j < suspects.len() && suspects[j] == left[i];
            assert(suspects[j].uuid == uuid);
        }
        if is_suspect(suspects, uuid) && uuid != gone {
            let i = choose|i: int| 0 <= i < suspects.len() && #[trigger] suspects[i].uuid == uuid;
            assert(suspects.contains(suspects[i]));
            assert(left.contains(suspects[i]));
            let j = choose|j: int| 0 <= j < left.len() && left[j] == suspects[i];
            assert(left[j].uuid == uuid);
        }
    }
}

/// Those who are left are the suspects that some anger is left at.
proof fn lemma_remaining(suspects: Seq<Suspect>, anger: Map<u128, i32>)
    ensures
        forall|uuid: u128|
            is_suspect(remaining(suspects, anger), uuid) <==> is_suspect(suspects, uuid)
                && anger.contains_key(uuid),
        forall|i: int|
            0 <= i < remaining(suspects, anger).len() ==> (#[trigger] remaining(
                suspects,
                anger,
            )[i]).anger == anger[remaining(suspects, anger)[i].uuid],
    decreases suspects.len(),
{
    if suspects.len() > 0 {
        let before = suspects.drop_last();
        let rest = remaining(before, anger);
        let all = remaining(suspects, anger);
        let last = suspects.last();
        lemma_remaining(before, anger);
        assert forall|uuid: u128|
            is_suspect(all, uuid) <==> is_suspect(suspects, uuid) && anger.contains_key(uuid) by {
            if is_suspect(all, uuid) {
                let i = choose|i: int| 0 <= i < all.len() && #[trigger] all[i].uuid == uuid;
                if i < rest.len() {
                    assert(rest[i].uuid == uuid);
                    assert(is_suspect(before, uuid));
                    let j = choose|j: int|
                        0 <= j < before.len() && #[trigger] before[j].uuid == uuid;
                    assert(suspects[j].uuid == uuid);
                } else {
                    assert(suspects[suspects.len() - 1].uuid == uuid);
                }
            }
            if is_suspect(suspects, uuid) && anger.contains_key(uuid) {
                let i = choose|i: int|
                    0 <= i < suspects.len() && #[trigger] suspects[i].uuid == uuid;
                if i < before.len() {
                    assert(before[i].uuid == uuid);
                    assert(is_suspect(before, uuid));
                    assert(is_suspect(rest, uuid));
                    let j = choose|j: int| 0 <= j < rest.len() && #[trigger] rest[j].uuid == uuid;
                    assert(all[j].uuid == uuid);
                } else {
                    assert(all[rest.len() as int].uuid == uuid);
                }
            }
        }
    }
}

/// The anger is not over once some of it has passed.
pub open spec fn lasts(anger: i32) -> bool {
    anger - DEFAULT_ANGER_DECREASE > EXHAUSTED_ANGER
}

impl AngerManagement {
    /// The anger at each suspect.
    pub closed spec fn anger(self) -> Map<u128, i32> {
        self.anger_by_suspect@
    }

    /// The suspects, in their order.
    pub closed spec fn order(self) -> Seq<Suspect> {
        self.suspects@
    }

    /// The greatest anger, as it is kept.
    pub closed spec fn highest(self) -> int {
        self.highest_anger as int
    }

    /// Everyone that the warden is angry at is a suspect, once and with that anger, and the
    /// other way round, the suspects are in order, the greatest anger is that of one of
    /// them, and no anger is above the limit.
    pub open spec fn wf(self) -> bool {
        &&& forall|uuid: u128| #[trigger]
            self.anger().contains_key(uuid) <==> is_suspect(self.order(), uuid)
        &&& rows_differ(self.order())
        &&& rows_agree(self.order(), self.anger())
        &&& is_sorted(self.order())
        &&& self.highest() == greatest_anger(self.order())
        &&& forall|uuid: u128| #[trigger]
            self.anger().contains_key(uuid) ==> self.anger()[uuid] <= MAX_ANGER
    }
}

impl Default for AngerManagement {
    fn default() -> (r: Self)
        ensures
            r.wf(),
            r.anger() == Map::<u128, i32>::empty(),
            r.order() == Seq::<Suspect>::empty(),
    {
        AngerManagement {
            anger_by_suspect: HashMap::new(),
            suspects: Vec::new(),
            highest_anger: 0,
        }
    }
}

/// None of the suspects passes.
pub open spec fn none_pass<F: Fn(u128) -> bool>(suspects: Seq<Suspect>, is_valid: F) -> bool {
    forall|j: int|
        0 <= j < suspects.len() ==> call_ensures(
            is_valid,
            ((#[trigger] suspects[j]).uuid,),
            false,
        )
}

impl AngerManagement {
    /// Puts the suspects in their order and notes the greatest anger.
    fn sort_and_update_highest_anger(&mut self)
        ensures
            final(self).anger() == old(self).anger(),
            final(self).order() == sorted(old(self).order()),
            final(self).highest() == greatest_anger(final(self).order()),
    {
        let mut list: Vec<Suspect> = Vec::new();
        let ghost before = self.suspects@;
        let mut i: usize = 0;
        while i < self.suspects.len()
            invariant
                self.suspects@ == before,
                self.anger_by_suspect == old(self).anger_by_suspect,
                i <= before.len(),
                list@ == sorted(before.take(i as int)),
            decreases self.suspects.len() - i,
        {
            let suspect: Suspect = self.suspects[i];
            assert(before.take(i as int + 1).drop_last() =~= before.take(i as int));
            let mut place: usize = 0;
            proof {
                lemma_place_in(list@, suspect);
            }
            while place < list.len() && !precedes(&suspect, &list[place])
                invariant
                    place <= list@.len(),
                    forall|j: int|
                        0 <= j < place ==> !comes_before(suspect, #[trigger] list@[j]),
                decreases list.len() - place,
            {
                place = place + 1;
            }
            proof {
                lemma_place_in(list@, suspect);
                let expected = place_in(list@, suspect);
                if place < expected {
                    assert(!comes_before(suspect, list@[place as int]));
                } else if expected < place {
                    assert(!comes_before(suspect, list@[expected]));
                }
            }
            list.insert(place, suspect);
            i = i + 1;
        }
        assert(before.take(i as int) =~= before);
        let mut highest: i32 = 0;
        let mut k: usize = 0;
        while k < list.len()
            invariant
                k <= list@.len(),
                highest == greatest_anger(list@.take(k as int)),
            decreases list.len() - k,
        {
            assert(list@.take(k as int + 1).drop_last() =~= list@.take(k as int));
            if k == 0 || list[k].anger > highest {
                highest = list[k].anger;
            }
            k = k + 1;
        }
        assert(list@.take(k as int) =~= list@);
        self.suspects = list;
        self.highest_anger = highest;
    }

    /// The anger at a suspect, 0 where there is none.
    pub open spec fn spec_anger_at(self, uuid: u128) -> int {
        if self.anger().contains_key(uuid) {
            self.anger()[uuid] as int
        } else {
            0
        }
    }

    /// Adds to the anger at someone, up to the limit, and returns it.
    pub fn increase_anger(&mut self, uuid: u128, is_player: bool, increment: i32) -> (r: i32)
        requires
            old(self).wf(),
            i32::MIN <= old(self).spec_anger_at(uuid) + increment <= i32::MAX,
        ensures
            final(self).wf(),
            r == (if old(self).spec_anger_at(uuid) + increment < MAX_ANGER {
                old(self).spec_anger_at(uuid) + increment
            } else {
                MAX_ANGER as int
            }),
            final(self).anger() == old(self).anger().insert(uuid, r),
            final(self).order() == sorted(
                noted(old(self).order(), Suspect { uuid, anger: r, is_player }),
            ),
    {
        let previous: i32 = match self.anger_by_suspect.get(&uuid) {
            Some(anger) => *anger,
            None => 0,
        };
        let sum: i32 = previous + increment;
        let current: i32 = if sum < MAX_ANGER {
            sum
        } else {
            MAX_ANGER
        };
        self.anger_by_suspect.insert(uuid, current);
        let suspect: Suspect = Suspect { uuid, anger: current, is_player };
        let ghost before = self.suspects@;
        proof {
            lemma_first_with(before, uuid);
            lemma_noted(before, suspect);
        }
        match self.find_suspect(uuid) {
            Some(i) => {
                self.suspects.set(i, suspect);
            },
            None => {
                self.suspects.push(suspect);
            },
        }
        proof {
            assert(self.suspects@ =~= noted(before, suspect));
            lemma_noted_rows(before, suspect, old(self).anger());
            law_sorted_is_sorted(self.suspects@);
            lemma_sorted_keeps(self.suspects@);
            lemma_sorted_rows(self.suspects@, self.anger_by_suspect@);
        }
        self.sort_and_update_highest_anger();
        current
    }

    /// The place of the first suspect with the uuid.
    fn find_suspect(&self, uuid: u128) -> (r: Option<usize>)
        ensures
            r is Some <==> first_with(self.suspects@, uuid) is Some,
            r matches Some(i) ==> first_with(self.suspects@, uuid) == Some(i as int) && i
                < self.suspects@.len(),
    {
        let mut i: usize = 0;
        while i < self.suspects.len()
            invariant
                i <= self.suspects@.len(),
                forall|j: int| 0 <= j < i ==> (#[trigger] self.suspects@[j]).uuid != uuid,
            decreases self.suspects.len() - i,
        {
            if self.suspects[i].uuid == uuid {
                proof {
                    lemma_first_with(self.suspects@, uuid);
                    assert(self.suspects@[i as int].uuid == uuid);
                    let k = first_with(self.suspects@, uuid)->0;
                    if k < i {
                        assert(self.suspects@[k].uuid != uuid);
                    }
                }
                return Some(i);
            }
            i = i + 1;
        }
        proof {
            lemma_first_with(self.suspects@, uuid);
        }
        None
    }

    /// Forgets all anger at someone.
    pub fn clear_anger(&mut self, uuid: u128)
        requires
            old(self).wf(),
        ensures
            final(self).wf(),
            final(self).anger() == old(self).anger().remove(uuid),
            final(self).order() == sorted(others(old(self).order(), uuid)),
    {
        self.anger_by_suspect.remove(&uuid);
        let ghost before = self.suspects@;
        let mut kept: Vec<Suspect> = Vec::new();
        let mut i: usize = 0;
        proof {
            reveal(Seq::filter);
        }
        while i < self.suspects.len()
            invariant
                self.suspects@ == before,
                self.anger_by_suspect@ == old(self).anger_by_suspect@.remove(uuid),
                i <= before.len(),
                kept@ == others(before.take(i as int), uuid),
            decreases self.suspects.len() - i,
        {
            proof {
                reveal(Seq::filter);
                assert(before.take(i as int + 1).drop_last() =~= before.take(i as int));
            }
            let suspect: Suspect = self.suspects[i];
            if suspect.uuid != uuid {
                kept.push(suspect);
            }
            i = i + 1;
        }
        assert(before.take(i as int) =~= before);
        self.suspects = kept;
        let ghost left = self.suspects@;
        proof {
            lemma_others(before, uuid);
            lemma_others_rows(before, uuid, old(self).anger());
            law_sorted_is_sorted(left);
            lemma_sorted_keeps(left);
            lemma_sorted_rows(left, self.anger_by_suspect@);
        }
        self.sort_and_update_highest_anger();
        proof {
            assert forall|other: u128| #[trigger]
                self.anger().contains_key(other) <==> is_suspect(self.order(), other) by {
                assert(old(self).anger().contains_key(other) <==> is_suspect(before, other));
                assert(is_suspect(sorted(left), other) <==> is_suspect(left, other));
            }
            assert forall|other: u128| #[trigger]
                self.anger().contains_key(other) implies self.anger()[other] <= MAX_ANGER by {
                assert(old(self).anger().contains_key(other));
            }
        }
    }

    /// Everyone that the warden is angry at.
    fn uuids(&self) -> (r: Vec<u128>)
        ensures
            r@.no_duplicates(),
            forall|uuid: u128| #[trigger]
                r@.contains(uuid) <==> self.anger_by_suspect@.contains_key(uuid),
    {
        let mut list: Vec<u128> = Vec::new();
        let ghost keys = self.anger_by_suspect.keys().remaining();
        for uuid in it: self.anger_by_suspect.keys()
            invariant
                it.seq() == keys,
                list@.len() == it.index(),
                forall|j: int| 0 <= j < it.index() ==> #[trigger] list@[j] == *keys[j],
        {
            list.push(*uuid);
        }
        proof {
            assert(list@ =~= keys.unref());
            assert(keys.unref().to_set() == self.anger_by_suspect@.dom());
            assert forall|uuid: u128| #[trigger]
                list@.contains(uuid) <==> self.anger_by_suspect@.contains_key(uuid) by {
                assert(list@.contains(uuid) <==> keys.unref().to_set().contains(uuid));
            }
        }
        list
    }

    /// Lets some anger pass. Whoever the anger at is over then, or who is not valid any
    /// more, is no longer a suspect.
    pub fn tick<F: Fn(u128) -> bool>(&mut self, is_valid: &F)
        requires
            old(self).wf(),
            forall|uuid: u128| call_requires(*is_valid, (uuid,)),
        ensures
            final(self).wf(),
            forall|uuid: u128| #[trigger]
                final(self).anger().contains_key(uuid) ==> {
                    &&& old(self).anger().contains_key(uuid)
                    &&& lasts(old(self).anger()[uuid])
                    &&& final(self).anger()[uuid] == old(self).anger()[uuid]
                        - DEFAULT_ANGER_DECREASE
                    &&& call_ensures(*is_valid, (uuid,), true)
                },
            forall|uuid: u128| #[trigger]
                old(self).anger().contains_key(uuid) && lasts(old(self).anger()[uuid])
                    && !final(self).anger().contains_key(uuid) ==> call_ensures(*is_valid, (uuid,), false),
            final(self).order() == sorted(remaining(old(self).order(), final(self).anger())),
    {
        let uuids: Vec<u128> = self.uuids();
        let ghost before = self.anger_by_suspect@;
        let ghost order = self.suspects@;
        let mut i: usize = 0;
        assert forall|j: int| 0 <= j < uuids@.len() implies before.contains_key(
            #[trigger] uuids@[j],
        ) by {
            assert(uuids@.contains(uuids@[j]));
        }
        while i < uuids.len()
            invariant
                i <= uuids@.len(),
                uuids@.no_duplicates(),
                forall|uuid: u128| #[trigger]
                    uuids@.contains(uuid) <==> before.contains_key(uuid),
                forall|uuid: u128| call_requires(*is_valid, (uuid,)),
                self.suspects@ == order,
                forall|uuid: u128| #[trigger]
                    self.anger_by_suspect@.contains_key(uuid) ==> before.contains_key(uuid),
                forall|j: int|
                    i <= j < uuids@.len() ==> self.anger_by_suspect@.contains_key(
                        #[trigger] uuids@[j],
                    ) && self.anger_by_suspect@[uuids@[j]] == before[uuids@[j]],
                forall|j: int|
                    0 <= j < i && self.anger_by_suspect@.contains_key(#[trigger] uuids@[j]) ==> {
                        &&& lasts(before[uuids@[j]])
                        &&& self.anger_by_suspect@[uuids@[j]] == before[uuids@[j]]
                            - DEFAULT_ANGER_DECREASE
                        &&& call_ensures(*is_valid, (uuids@[j],), true)
                    },
                forall|j: int|
                    0 <= j < i && lasts(before[#[trigger] uuids@[j]])
                        && !self.anger_by_suspect@.contains_key(uuids@[j]) ==> call_ensures(
                        *is_valid,
                        (uuids@[j],),
                        false,
                    ),
            decreases uuids.len() - i,
        {
            let uuid: u128 = uuids[i];
            let ghost held = self.anger_by_suspect@;
            assert(held.contains_key(uuids@[i as int]));
            let anger: i32 = match self.anger_by_suspect.get(&uuid) {
                Some(anger) => *anger,
                None => 0,
            };
            assert(anger == before[uuid]);
            if anger > EXHAUSTED_ANGER + DEFAULT_ANGER_DECREASE && is_valid(uuid) {
                self.anger_by_suspect.insert(uuid, anger - DEFAULT_ANGER_DECREASE);
            } else {
                self.anger_by_suspect.remove(&uuid);
            }
            assert forall|j: int| 0 <= j < uuids@.len() && j != i implies #[trigger] uuids@[j]
                != uuid by {}
            i = i + 1;
        }
        let mut left: Vec<Suspect> = Vec::new();
        let mut k: usize = 0;
        let ghost after = self.anger_by_suspect@;
        while k < self.suspects.len()
            invariant
                self.anger_by_suspect@ == after,
                self.suspects@ == order,
                k <= order.len(),
                left@ == remaining(order.take(k as int), after),
            decreases self.suspects.len() - k,
        {
            assert(order.take(k as int + 1).drop_last() =~= order.take(k as int));
            let suspect: Suspect = self.suspects[k];
            match self.anger_by_suspect.get(&suspect.uuid) {
                Some(anger) => {
                    left.push(
                        Suspect {
                            uuid: suspect.uuid,
                            anger: *anger,
                            is_player: suspect.is_player,
                        },
                    );
                },
                None => {},
            }
            k = k + 1;
        }
        assert(order.take(k as int) =~= order);
        self.suspects = left;
        let ghost list = self.suspects@;
        proof {
            lemma_remaining(order, after);
            lemma_remaining_rows(order, after);
            law_sorted_is_sorted(list);
            lemma_sorted_keeps(list);
            lemma_sorted_rows(list, after);
        }
        self.sort_and_update_highest_anger();
        proof {
            assert forall|uuid: u128| #[trigger]
                self.anger().contains_key(uuid) implies old(self).anger().contains_key(uuid) && lasts(
                old(self).anger()[uuid],
            ) && self.anger()[uuid] == old(self).anger()[uuid] - DEFAULT_ANGER_DECREASE && call_ensures(
                *is_valid,
                (uuid,),
                true,
            ) by {
                assert(uuids@.contains(uuid));
                let j = choose|j: int| 0 <= j < uuids@.len() && uuids@[j] == uuid;
                assert(after.contains_key(uuids@[j]));
            }
            assert forall|uuid: u128| #[trigger]
                old(self).anger().contains_key(uuid) && lasts(
                old(self).anger()[uuid],
            ) && !self.anger().contains_key(uuid) implies call_ensures(*is_valid, (uuid,), false) by {
                assert(uuids@.contains(uuid));
                let j = choose|j: int| 0 <= j < uuids@.len() && uuids@[j] == uuid;
                assert(lasts(before[uuids@[j]]));
            }
            assert forall|uuid: u128| #[trigger]
                self.anger().contains_key(uuid) <==> is_suspect(self.order(), uuid) by {
                assert(old(self).anger().contains_key(uuid) <==> is_suspect(order, uuid));
                assert(is_suspect(sorted(list), uuid) <==> is_suspect(list, uuid));
            }
        }
    }

    /// The anger that counts: that at the current target, where there is one, and else
    /// the greatest of all.
    pub fn active_anger(&self, current_target: Option<u128>) -> (r: i32)
        ensures
            r == match current_target {
                Some(uuid) => self.spec_anger_at(uuid),
                None => self.highest(),
            },
    {
        match current_target {
            Some(uuid) => match self.anger_by_suspect.get(&uuid) {
                Some(anger) => *anger,
                None => 0,
            },
            None => self.highest_anger,
        }
    }

    /// The first suspect, in their order, that is valid.
    pub fn top_suspect<F: Fn(u128) -> bool>(&self, is_valid: &F) -> (r: Option<u128>)
        requires
            forall|uuid: u128| call_requires(*is_valid, (uuid,)),
        ensures
            r matches Some(uuid) ==> exists|i: int|
                {
                    &&& 0 <= i < self.order().len()
                    &&& (#[trigger] self.order()[i]).uuid == uuid
                    &&& call_ensures(*is_valid, (uuid,), true)
                    &&& forall|j: int|
                        0 <= j < i ==> call_ensures(
                            *is_valid,
                            ((#[trigger] self.order()[j]).uuid,),
                            false,
                        )
                },
            r is None ==> forall|j: int|
                0 <= j < self.order().len() ==> call_ensures(
                    *is_valid,
                    ((#[trigger] self.order()[j]).uuid,),
                    false,
                ),
            r is None ==> none_pass(self.order(), *is_valid),
    {
        let mut i: usize = 0;
        while i < self.suspects.len()
            invariant
                i <= self.suspects@.len(),
                forall|uuid: u128| call_requires(*is_valid, (uuid,)),
                forall|j: int|
                    0 <= j < i ==> call_ensures(
                        *is_valid,
                        ((#[trigger] self.suspects@[j]).uuid,),
                        false,
                    ),
            decreases self.suspects.len() - i,
        {
            let uuid: u128 = self.suspects[i].uuid;
            if is_valid(uuid) {
                assert(self.order()[i as int].uuid == uuid);
                return Some(uuid);
            }
            i = i + 1;
        }
        None
    }

    /// Everyone that the warden is angry at, once each and in no particular order, with
    /// the anger at them.
    pub fn suspect_pairs(&self) -> (r: Vec<(u128, i32)>)
        ensures
            r@.len() == self.anger().len(),
            forall|i: int, j: int|
                0 <= i < j < r@.len() ==> (#[trigger] r@[i]).0 != (#[trigger] r@[j]).0,
            forall|i: int|
                0 <= i < r@.len() ==> self.anger().contains_key((#[trigger] r@[i]).0)
                    && self.anger()[r@[i].0] == r@[i].1,
            forall|uuid: u128| #[trigger]
                self.anger().contains_key(uuid) ==> r@.contains((uuid, self.anger()[uuid])),
    {
        let uuids: Vec<u128> = self.uuids();
        let mut pairs: Vec<(u128, i32)> = Vec::new();
        let mut i: usize = 0;
        while i < uuids.len()
            invariant
                i <= uuids@.len(),
                forall|uuid: u128| #[trigger]
                    uuids@.contains(uuid) <==> self.anger_by_suspect@.contains_key(uuid),
                pairs@.len() == i,
                forall|j: int|
                    0 <= j < i ==> (#[trigger] pairs@[j]).0 == uuids@[j] && pairs@[j].1
                        == self.anger_by_suspect@[uuids@[j]],
            decreases uuids.len() - i,
        {
            let uuid: u128 = uuids[i];
            assert(uuids@.contains(uuid));
            let anger: i32 = match self.anger_by_suspect.get(&uuid) {
                Some(anger) => *anger,
                None => 0,
            };
            pairs.push((uuid, anger));
            i = i + 1;
        }
        proof {
            assert(uuids@.to_set() =~= self.anger_by_suspect@.dom());
            uuids@.unique_seq_to_set();
            assert forall|j: int| 0 <= j < pairs@.len() implies self.anger().contains_key(
                (#[trigger] pairs@[j]).0,
            ) by {
                assert(uuids@.contains(uuids@[j]));
            }
            assert forall|uuid: u128| #[trigger]
                self.anger().contains_key(uuid) implies pairs@.contains(
                (uuid, self.anger()[uuid]),
            ) by {
                assert(uuids@.contains(uuid));
                let j = choose|j: int| 0 <= j < uuids@.len() && uuids@[j] == uuid;
                assert(pairs@[j] == (uuid, self.anger()[uuid]));
            }
        }
        pairs
    }

    /// Takes up anger that was saved, kept between 0 and the limit, in place of what there
    /// was. Whether it is anger at a player is not known then.
    pub fn insert_saved(&mut self, uuid: u128, anger: i32)
        requires
            old(self).wf(),
        ensures
            final(self).wf(),
            final(self).anger() == old(self).anger().insert(uuid, saved_row(uuid, anger).anger),
            final(self).order() == sorted(noted(old(self).order(), saved_row(uuid, anger))),
    {
        let kept: i32 = if anger < 0 {
            0
        } else if anger > MAX_ANGER {
            MAX_ANGER
        } else {
            anger
        };
        self.anger_by_suspect.insert(uuid, kept);
        let suspect: Suspect = Suspect { uuid, anger: kept, is_player: false };
        let ghost before = self.suspects@;
        proof {
            lemma_first_with(before, uuid);
            lemma_noted(before, suspect);
        }
        match self.find_suspect(uuid) {
            Some(i) => {
                self.suspects.set(i, suspect);
            },
            None => {
                self.suspects.push(suspect);
            },
        }
        proof {
            assert(self.suspects@ =~= noted(before, suspect));
            lemma_noted_rows(before, suspect, old(self).anger());
            law_sorted_is_sorted(self.suspects@);
            lemma_sorted_keeps(self.suspects@);
            lemma_sorted_rows(self.suspects@, self.anger_by_suspect@);
        }
        self.sort_and_update_highest_anger();
    }
}

// ---------------------------------------------------------------------------
// Laws.
// ---------------------------------------------------------------------------

/// The anger that the pairs say, put in one after the other.
pub open spec fn restored(anger: Map<u128, i32>, pairs: Seq<(u128, i32)>) -> Map<u128, i32>
    decreases pairs.len(),
{
    if pairs.len() == 0 {
        anger
    } else {
        restored(anger, pairs.drop_last()).insert(
            pairs.last().0,
            saved_row(pairs.last().0, pairs.last().1).anger,
        )
    }
}

/// The suspects once each of the pairs has been noted in turn.
pub open spec fn restored_order(order: Seq<Suspect>, pairs: Seq<(u128, i32)>) -> Seq<Suspect>
    decreases pairs.len(),
{
    if pairs.len() == 0 {
        order
    } else {
        sorted(
            noted(
                restored_order(order, pairs.drop_last()),
                saved_row(pairs.last().0, pairs.last().1),
            ),
        )
    }
}

/// Law: anger that is saved comes back. Taking up the pairs that were saved, where no
/// anger was below 0, gives each suspect the anger that was saved for it.
pub proof fn law_saved_anger_comes_back(pairs: Seq<(u128, i32)>, anger: Map<u128, i32>)
    requires
        forall|i: int, j: int|
            0 <= i < j < pairs.len() ==> (#[trigger] pairs[i]).0 != (#[trigger] pairs[j]).0,
        forall|i: int|
            0 <= i < pairs.len() ==> anger.contains_key((#[trigger] pairs[i]).0)
                && anger[pairs[i].0] == pairs[i].1 && 0 <= pairs[i].1 <= MAX_ANGER,
        forall|uuid: u128| #[trigger]
            anger.contains_key(uuid) ==> pairs.contains((uuid, anger[uuid])),
    ensures
        restored(Map::empty(), pairs) == anger,
{
    lemma_restored(pairs);
    let back = restored(Map::empty(), pairs);
    assert forall|uuid: u128| #[trigger] back.contains_key(uuid) <==> anger.contains_key(uuid) by {
        if anger.contains_key(uuid) {
            assert(pairs.contains((uuid, anger[uuid])));
            let i = choose|i: int| 0 <= i < pairs.len() && pairs[i] == (uuid, anger[uuid]);
            assert(back.contains_key(pairs[i].0));
        }
        if back.contains_key(uuid) {
            let i = choose|i: int| 0 <= i < pairs.len() && #[trigger] pairs[i].0 == uuid;
            assert(anger.contains_key(pairs[i].0));
        }
    }
    assert forall|uuid: u128| #[trigger] back.contains_key(uuid) implies back[uuid]
        == anger[uuid] by {
        let i = choose|i: int| 0 <= i < pairs.len() && #[trigger] pairs[i].0 == uuid;
        assert(back[pairs[i].0] == pairs[i].1);
    }
    assert(back =~= anger);
}

/// What was put in for distinct suspects is there for each of them, and no one else.
proof fn lemma_restored(pairs: Seq<(u128, i32)>)
    requires
        forall|i: int, j: int|
            0 <= i < j < pairs.len() ==> (#[trigger] pairs[i]).0 != (#[trigger] pairs[j]).0,
        forall|i: int| 0 <= i < pairs.len() ==> 0 <= (#[trigger] pairs[i]).1 <= MAX_ANGER,
    ensures
        forall|i: int|
            0 <= i < pairs.len() ==> restored(Map::empty(), pairs).contains_key(
                (#[trigger] pairs[i]).0,
            ) && restored(Map::empty(), pairs)[pairs[i].0] == pairs[i].1,
        forall|uuid: u128| #[trigger]
            restored(Map::empty(), pairs).contains_key(uuid) ==> exists|i: int|
                0 <= i < pairs.len() && #[trigger] pairs[i].0 == uuid,
    decreases pairs.len(),
{
    if pairs.len() > 0 {
        let rest = pairs.drop_last();
        let back = restored(Map::empty(), pairs);
        lemma_restored(rest);
        assert forall|i: int| 0 <= i < pairs.len() implies back.contains_key(
            (#[trigger] pairs[i]).0,
        ) && back[pairs[i].0] == pairs[i].1 by {
            if i < rest.len() {
                assert(rest[i] == pairs[i]);
                assert(pairs[i].0 != pairs[pairs.len() - 1].0);
            }
        }
        assert forall|uuid: u128| #[trigger] back.contains_key(uuid) implies exists|i: int|
            0 <= i < pairs.len() && #[trigger] pairs[i].0 == uuid by {
            if uuid == pairs.last().0 {
                assert(pairs[pairs.len() - 1].0 == uuid);
            } else {
                assert(restored(Map::empty(), rest).contains_key(uuid));
                let i = choose|i: int| 0 <= i < rest.len() && #[trigger] rest[i].0 == uuid;
                assert(pairs[i].0 == uuid);
            }
        }
    }
}

/// Law: whoever the warden is truly angry at comes before everyone that it is not.
pub proof fn law_angry_suspects_come_first(management: AngerManagement, i: int, j: int)
    requires
        management.wf(),
        0 <= i < j < management.order().len(),
        AngerLevel::spec_by_anger(management.order()[j].anger as int) == AngerLevel::Angry,
    ensures
        AngerLevel::spec_by_anger(management.order()[i].anger as int) == AngerLevel::Angry,
{
}

/// Law: among suspects of one kind of anger, players come before all others, and among
/// players, or others, more anger comes before less.
pub proof fn law_players_come_before_others(management: AngerManagement, i: int, j: int)
    requires
        management.wf(),
        0 <= i < j < management.order().len(),
        (AngerLevel::spec_by_anger(management.order()[i].anger as int) == AngerLevel::Angry) == (
        AngerLevel::spec_by_anger(management.order()[j].anger as int) == AngerLevel::Angry),
    ensures
        management.order()[j].is_player ==> management.order()[i].is_player,
        management.order()[i].is_player == management.order()[j].is_player
            ==> management.order()[i].anger >= management.order()[j].anger,
{
}

/// Law: no suspect has more anger than the greatest anger that is kept.
pub proof fn law_greatest_anger_bounds_all(suspects: Seq<Suspect>, i: int)
    requires
        0 <= i < suspects.len(),
    ensures
        suspects[i].anger <= greatest_anger(suspects),
        exists|k: int|
            0 <= k < suspects.len() && #[trigger] suspects[k].anger == greatest_anger(suspects),
    decreases suspects.len(),
{
    if suspects.len() == 1 {
        assert(suspects[0].anger == greatest_anger(suspects));
    } else {
        let rest = suspects.drop_last();
        if i < rest.len() {
            law_greatest_anger_bounds_all(rest, i);
            assert(rest[i] == suspects[i]);
        } else {
            law_greatest_anger_bounds_all(rest, 0);
        }
        let k = choose|k: int|
            0 <= k < rest.len() && #[trigger] rest[k].anger == greatest_anger(rest);
        assert(suspects[k].anger == greatest_anger(rest));
        assert(suspects[suspects.len() - 1].anger == suspects.last().anger);
    }
}

/// Law: with no target, the anger that counts is the greatest of the whole table: it is at least
/// the anger at everyone, and that at someone, or 0 where the warden is angry at no one.
pub proof fn law_highest_is_the_greatest_of_the_table(management: AngerManagement)
    requires
        management.wf(),
    ensures
        forall|uuid: u128| #[trigger]
            management.anger().contains_key(uuid) ==> management.anger()[uuid]
                <= management.highest(),
        management.order().len() == 0 ==> management.highest() == 0,
        management.order().len() > 0 ==> exists|uuid: u128| #[trigger]
            management.anger().contains_key(uuid) && management.anger()[uuid]
                == management.highest(),
{
    let order = management.order();
    let anger = management.anger();
    assert forall|uuid: u128| #[trigger] anger.contains_key(uuid) implies anger[uuid]
        <= management.highest() by {
        assert(is_suspect(order, uuid));
        let i = choose|i: int| 0 <= i < order.len() && #[trigger] order[i].uuid == uuid;
        law_greatest_anger_bounds_all(order, i);
        assert(order[i].anger == anger[order[i].uuid]);
    }
    if order.len() > 0 {
        law_greatest_anger_bounds_all(order, 0);
        let k = choose|k: int|
            0 <= k < order.len() && #[trigger] order[k].anger == greatest_anger(order);
        assert(anger.contains_key(order[k].uuid));
    }
}

/// Law: a warden is agitated from 40 on and angry from 80 on, and sounds so.
pub proof fn law_levels_of_anger(
    anger: i32,
    level: AngerLevel,
    least: i32,
    roams: WardenSound,
    listens: WardenSound,
    angry: bool,
)
    requires
        call_ensures(AngerLevel::by_anger, (anger,), level),
        call_ensures(AngerLevel::minimum_anger, (level,), least),
        call_ensures(AngerLevel::ambient_sound, (level,), roams),
        call_ensures(AngerLevel::listening_sound, (level,), listens),
        call_ensures(AngerLevel::is_angry, (level,), angry),
    ensures
        level == AngerLevel::Calm <==> anger < 40,
        level == AngerLevel::Agitated <==> 40 <= anger < 80,
        level == AngerLevel::Angry <==> anger >= 80,
        least == 0 || least == 40 || least == 80,
        anger >= 0 ==> least <= anger < least + 40 || least == 80,
        angry <==> anger >= 80,
        roams == WardenSound::Ambient <==> anger < 40,
        roams == WardenSound::Angry <==> anger >= 80,
        roams == WardenSound::Agitated <==> 40 <= anger < 80,
        listens == WardenSound::Listening <==> anger < 40,
        listens == WardenSound::ListeningAngry <==> anger >= 40,
{
}

/// Law: anger at someone grows by what is added, up to 150, and at nobody else. Whoever it is at is a
/// suspect from then on.
pub proof fn law_anger_grows(
    management: &mut AngerManagement,
    uuid: u128,
    is_player: bool,
    increment: i32,
    r: i32,
    other: u128,
    active: i32,
)
    requires
        call_ensures(AngerManagement::increase_anger, (management, uuid, is_player, increment), r),
        call_ensures(AngerManagement::active_anger, (&*final(management), Some(uuid)), active),
    ensures
        ({
            let before = if old(management).anger().contains_key(uuid) {
                old(management).anger()[uuid] as int
            } else {
                0
            };
            &&& before + increment <= 150 ==> r == before + increment
            &&& before + increment > 150 ==> r == 150
        }),
        final(management).anger().contains_key(uuid),
        final(management).anger()[uuid] == r,
        active == r,
        other != uuid ==> final(management).anger().contains_key(other) == old(management).anger().contains_key(other),
        other != uuid && old(management).anger().contains_key(other) ==> final(management).anger()[other] == old(management).anger()[other],
        is_suspect(final(management).order(), uuid),
        final(management).order().contains((Suspect { uuid, anger: r, is_player })),
{
    let suspect = Suspect { uuid, anger: r, is_player };
    let before = old(management).order();
    lemma_first_with(before, uuid);
    let after = noted(before, suspect);
    match first_with(before, uuid) {
        Some(i) => {
            assert(after[i] == suspect);
        },
        None => {
            assert(after[before.len() as int] == suspect);
        },
    }
    lemma_sorted_keeps(after);
    assert(sorted(after).contains(suspect));
    let k = choose|k: int| 0 <= k < sorted(after).len() && sorted(after)[k] == suspect;
    assert(final(management).order()[k].uuid == uuid);
}

/// Law: whoever has more than 80 against it comes before all others, then players, and then those with
/// more against them.
pub proof fn law_order_of_the_suspects(management: AngerManagement, i: int, j: int)
    requires
        management.wf(),
        0 <= i < j < management.order().len(),
    ensures
        management.order()[j].anger >= 80 ==> management.order()[i].anger >= 80,
        management.order()[i].anger >= 80 && management.order()[j].anger >= 80
            && management.order()[j].is_player ==> management.order()[i].is_player,
        management.order()[i].anger < 80 && management.order()[j].anger < 80
            && management.order()[j].is_player ==> management.order()[i].is_player,
        management.order()[i].anger >= 80 && management.order()[j].anger >= 80
            && management.order()[j].is_player == management.order()[i].is_player
            ==> management.order()[i].anger >= management.order()[j].anger,
        management.order()[i].anger < 80 && management.order()[j].anger < 80
            && management.order()[j].is_player == management.order()[i].is_player
            ==> management.order()[i].anger >= management.order()[j].anger,
        management.order()[i].uuid != management.order()[j].uuid,
        management.order()[i].anger <= 150,
{
    let a = management.order()[i];
    let b = management.order()[j];
    assert(!comes_before(b, a));
    assert(management.anger().contains_key(a.uuid));
}

/// Law: anger that is forgotten is gone, and no other is.
pub proof fn law_cleared_anger_is_gone(
    management: &mut AngerManagement,
    uuid: u128,
    other: u128,
    active: i32,
)
    requires
        call_ensures(AngerManagement::clear_anger, (management, uuid), ()),
        call_ensures(AngerManagement::active_anger, (&*final(management), Some(uuid)), active),
    ensures
        !final(management).anger().contains_key(uuid),
        active == 0,
        other != uuid ==> final(management).anger().contains_key(other) == old(management).anger().contains_key(other),
        other != uuid && old(management).anger().contains_key(other) ==> final(management).anger()[other] == old(management).anger()[other],
        !is_suspect(final(management).order(), uuid),
{
}

/// Law: anger passes by 1 at a time. It is over once it has come down to 1, and so is anger at whoever
/// is not valid any more; nobody new comes in.
pub proof fn law_anger_passes<F: Fn(u128) -> bool>(
    management: &mut AngerManagement,
    is_valid: F,
    uuid: u128,
)
    requires
        call_ensures(AngerManagement::tick::<F>, (management, &is_valid), ()),
    ensures
        final(management).anger().contains_key(uuid) ==> old(management).anger().contains_key(uuid)
            && final(management).anger()[uuid] == old(management).anger()[uuid] - 1 && old(management).anger()[uuid] > 2 && call_ensures(is_valid, (uuid,), true),
        old(management).anger().contains_key(uuid) && old(management).anger()[uuid] <= 2 ==> !final(management).anger().contains_key(uuid),
        old(management).anger().contains_key(uuid) && old(management).anger()[uuid] > 2
            && !call_ensures(is_valid, (uuid,), false) ==> final(management).anger().contains_key(
            uuid,
        ),
{
}

/// Law: saved anger is taken up as it was saved, as far as it is between 0 and 150, and else as the
/// nearer end; nobody else's changes.
pub proof fn law_saved_anger_is_kept_in_bounds(
    management: &mut AngerManagement,
    uuid: u128,
    anger: i32,
    other: u128,
)
    requires
        call_ensures(AngerManagement::insert_saved, (management, uuid, anger), ()),
    ensures
        final(management).anger().contains_key(uuid),
        0 <= anger <= 150 ==> final(management).anger()[uuid] == anger,
        anger < 0 ==> final(management).anger()[uuid] == 0,
        anger > 150 ==> final(management).anger()[uuid] == 150,
        other != uuid ==> final(management).anger().contains_key(other) == old(management).anger().contains_key(other),
        other != uuid && old(management).anger().contains_key(other) ==> final(management).anger()[other] == old(management).anger()[other],
{
}

/// Law: with a target the anger at it counts, and none where there is no anger at it; without one the
/// greatest of all counts.
pub proof fn law_anger_that_counts(
    management: AngerManagement,
    target: u128,
    at_target: i32,
    greatest: i32,
    uuid: u128,
)
    requires
        management.wf(),
        call_ensures(AngerManagement::active_anger, (&management, Some(target)), at_target),
        call_ensures(AngerManagement::active_anger, (&management, None), greatest),
    ensures
        management.anger().contains_key(target) ==> at_target == management.anger()[target],
        !management.anger().contains_key(target) ==> at_target == 0,
        management.anger().contains_key(uuid) ==> management.anger()[uuid] <= greatest,
        management.order().len() == 0 ==> greatest == 0,
{
    law_highest_is_the_greatest_of_the_table(management);
}

/// Law: everyone that a warden is angry at is listed once, with that anger, and nobody else is. The first
/// suspect is one that passes, and everyone before it in the order does not.
pub proof fn law_suspects_are_listed<F: Fn(u128) -> bool>(
    management: AngerManagement,
    pairs: Vec<(u128, i32)>,
    is_valid: F,
    top: Option<u128>,
    uuid: u128,
    i: int,
)
    requires
        call_ensures(AngerManagement::suspect_pairs, (&management,), pairs),
        call_ensures(AngerManagement::top_suspect::<F>, (&management, &is_valid), top),
    ensures
        pairs@.len() == management.anger().len(),
        management.anger().contains_key(uuid) ==> pairs@.contains((uuid, management.anger()[uuid])),
        0 <= i < pairs@.len() ==> management.anger().contains_key(pairs@[i].0)
            && management.anger()[pairs@[i].0] == pairs@[i].1,
        top is Some ==> call_ensures(is_valid, (top->0,), true),
        top is None && 0 <= i < management.order().len() ==> call_ensures(
            is_valid,
            (management.order()[i].uuid,),
            false,
        ),
{
    if top is None {
        assert(none_pass(management.order(), is_valid));
    }
}

} // verus!
