//! The grudges of a warden, as they are saved.

use vstd::prelude::*;

use super::anger::{
    law_saved_anger_comes_back, restored, restored_order, AngerManagement, MAX_ANGER,
};
use super::WardenEntity;
use crate::data::nbt::{
    as_compound, as_int, as_int_array, as_list, found_under, lemma_values_of, lemma_values_pushed,
    put_under, values_of, NbtCompound, NbtTag, NbtValue,
};
use crate::data::rank::Rank32;
use crate::entity::living::LivingEntity;

verus! {

/// Two to the power of 32.
pub const WORD: u64 = 0x1_0000_0000;

/// Two to the power of 64.
pub const LONG: u128 = 0x1_0000_0000_0000_0000;

/// A word read as a signed number.
pub open spec fn signed(word: int) -> int {
    if word >= 0x8000_0000 {
        word - 0x1_0000_0000
    } else {
        word
    }
}

/// A signed number read as a word.
pub open spec fn unsigned(number: int) -> int {
    if number < 0 {
        number + 0x1_0000_0000
    } else {
        number
    }
}

/// The four words of a uuid, the highest first, read as signed numbers.
pub open spec fn words_of(uuid: u128) -> Seq<i32> {
    let high = uuid as int / (LONG as int);
    let low = uuid as int % (LONG as int);
    seq![
        signed(high / (WORD as int)) as i32,
        signed(high % (WORD as int)) as i32,
        signed(low / (WORD as int)) as i32,
        signed(low % (WORD as int)) as i32,
    ]
}

/// The uuid of four words.
pub open spec fn uuid_of(words: Seq<i32>) -> int {
    (unsigned(words[0] as int) * WORD + unsigned(words[1] as int)) * LONG + unsigned(
        words[2] as int,
    ) * WORD + unsigned(words[3] as int)
}

/// A word read as a signed number.
fn to_signed(word: u64) -> (r: i32)
    requires
        word < WORD,
    ensures
        r == signed(word as int),
{
    if word >= 0x8000_0000 {
        (word as i64 - 0x1_0000_0000) as i32
    } else {
        word as i32
    }
}

/// A signed number read as a word.
fn to_unsigned(number: i32) -> (r: u64)
    ensures
        r == unsigned(number as int),
        r < WORD,
{
    if number < 0 {
        (number as i64 + 0x1_0000_0000) as u64
    } else {
        number as u64
    }
}

/// The four words of a uuid.
pub fn pack_uuid(uuid: u128) -> (r: Vec<i32>)
    ensures
        r@ == words_of(uuid),
{
    let high: u64 = (uuid / LONG) as u64;
    let low: u64 = (uuid % LONG) as u64;
    let mut words: Vec<i32> = Vec::new();
    words.push(to_signed(high / WORD));
    words.push(to_signed(high % WORD));
    words.push(to_signed(low / WORD));
    words.push(to_signed(low % WORD));
    assert(words@ =~= words_of(uuid));
    words
}

/// The uuid of some words, where there are four.
pub fn unpack_uuid(words: &Vec<i32>) -> (r: Option<u128>)
    ensures
        r is Some <==> words@.len() == 4,
        r matches Some(uuid) ==> uuid == uuid_of(words@),
{
    if words.len() != 4 {
        return None;
    }
    let high: u128 = to_unsigned(words[0]) as u128 * (WORD as u128) + to_unsigned(words[1]) as u128;
    let low: u128 = to_unsigned(words[2]) as u128 * (WORD as u128) + to_unsigned(words[3]) as u128;
    Some(high * LONG + low)
}

/// Law: a uuid comes back from its four words.
pub proof fn law_uuid_comes_back(uuid: u128)
    ensures
        words_of(uuid).len() == 4,
        uuid_of(words_of(uuid)) == uuid,
{
    let high = uuid as int / (LONG as int);
    let low = uuid as int % (LONG as int);
    assert(uuid as int == high * (LONG as int) + low);
    assert(0 <= high < LONG as int);
    let words = words_of(uuid);
    assert(unsigned(words[0] as int) == high / (WORD as int));
    assert(unsigned(words[1] as int) == high % (WORD as int));
    assert(unsigned(words[2] as int) == low / (WORD as int));
    assert(unsigned(words[3] as int) == low % (WORD as int));
    assert(high == (high / (WORD as int)) * (WORD as int) + high % (WORD as int));
    assert(low == (low / (WORD as int)) * (WORD as int) + low % (WORD as int));
}

/// Law: four words come back from their uuid.
pub proof fn law_words_come_back(words: Seq<i32>)
    requires
        words.len() == 4,
    ensures
        0 <= uuid_of(words) <= u128::MAX,
        words_of(uuid_of(words) as u128) == words,
{
    let uuid = uuid_of(words);
    let high = unsigned(words[0] as int) * WORD + unsigned(words[1] as int);
    let low = unsigned(words[2] as int) * WORD + unsigned(words[3] as int);
    assert(0 <= high < LONG as int);
    assert(0 <= low < LONG as int);
    assert(uuid == high * LONG + low);
    assert(uuid / (LONG as int) == high && uuid % (LONG as int) == low);
    assert(high / (WORD as int) == unsigned(words[0] as int));
    assert(high % (WORD as int) == unsigned(words[1] as int));
    assert(low / (WORD as int) == unsigned(words[2] as int));
    assert(low % (WORD as int) == unsigned(words[3] as int));
    assert(words_of(uuid as u128) =~= words);
}

/// A grudge as it is saved: the uuid in four words, the highest first, and the anger.
pub open spec fn grudge_value(pair: (u128, i32)) -> NbtValue {
    NbtValue::Compound(
        Map::empty().insert("uuid"@, NbtValue::IntArray(words_of(pair.0))).insert(
            "anger"@,
            NbtValue::Int(pair.1),
        ),
        None,
    )
}

/// The grudges as they are saved, one after the other.
pub open spec fn grudge_values(pairs: Seq<(u128, i32)>) -> Seq<NbtValue> {
    pairs.map_values(|pair: (u128, i32)| grudge_value(pair))
}

/// The anger as it is saved: a list of grudges.
pub open spec fn anger_value(pairs: Seq<(u128, i32)>) -> NbtValue {
    NbtValue::Compound(
        Map::empty().insert("suspects"@, NbtValue::List(grudge_values(pairs))),
        None,
    )
}

/// The pairs list everyone whom the anger is at, once each, with the anger at them.
pub open spec fn lists_anger(anger: Map<u128, i32>, pairs: Seq<(u128, i32)>) -> bool {
    &&& pairs.len() == anger.len()
    &&& forall|i: int, j: int|
        0 <= i < j < pairs.len() ==> (#[trigger] pairs[i]).0 != (#[trigger] pairs[j]).0
    &&& forall|i: int|
        0 <= i < pairs.len() ==> anger.contains_key((#[trigger] pairs[i]).0) && anger[pairs[i].0]
            == pairs[i].1
    &&& forall|uuid: u128| #[trigger]
        anger.contains_key(uuid) ==> pairs.contains((uuid, anger[uuid]))
}

/// What is saved of a warden under the name: what is saved of any living entity, and beside
/// it the grudges.
pub open spec fn saved_warden(living: LivingEntity, pairs: Seq<(u128, i32)>, name: Seq<char>) -> Option<
    NbtValue,
> {
    match living.spec_saved(name) {
        Some(value) => Some(value),
        None => if name == "anger"@ {
            Some(anger_value(pairs))
        } else {
            None
        },
    }
}

/// The warden is saved, with the grudges in the order of the pairs, beside what was saved.
pub open spec fn is_saved(
    before: NbtCompound,
    after: NbtCompound,
    living: LivingEntity,
    pairs: Seq<(u128, i32)>,
) -> bool {
    forall|name: Seq<char>| #[trigger]
        after.spec_get(name) == (match before.spec_get(name) {
            Some(value) => Some(value),
            None => saved_warden(living, pairs, name),
        })
}

/// The values under the names of a grudge, where the value is a compound; none otherwise.
pub open spec fn grudge_fields(value: NbtValue) -> Map<Seq<char>, NbtValue> {
    match as_compound(Some(value)) {
        Some(values) => values,
        None => Map::empty(),
    }
}

/// The grudge that is found, where it is whole: four words and an anger of at least 0.
pub open spec fn found_grudge(value: NbtValue) -> Option<(u128, i32)> {
    let fields = grudge_fields(value);
    match (as_int_array(found_under(fields, "uuid"@)), as_int(found_under(fields, "anger"@))) {
        (Some(words), Some(anger)) => if words.len() == 4 && anger >= 0 {
            Some((uuid_of(words) as u128, anger))
        } else {
            None
        },
        _ => None,
    }
}

/// The grudges that are found whole, in order.
pub open spec fn found_grudges(found: Seq<NbtValue>) -> Seq<(u128, i32)>
    decreases found.len(),
{
    if found.len() == 0 {
        Seq::empty()
    } else {
        match found_grudge(found.last()) {
            Some(grudge) => found_grudges(found.drop_last()).push(grudge),
            None => found_grudges(found.drop_last()),
        }
    }
}

/// The list of grudges that is found, where there is one.
pub open spec fn found_suspects(nbt: NbtCompound) -> Option<Seq<NbtValue>> {
    match as_compound(nbt.spec_get("anger"@)) {
        Some(values) => as_list(found_under(values, "suspects"@)),
        None => None,
    }
}

/// A grudge to save.
fn save_grudge(uuid: u128, anger: i32) -> (r: NbtTag)
    ensures
        r@ == grudge_value((uuid, anger)),
{
    let mut entry: NbtCompound = NbtCompound::new();
    entry.put("uuid", NbtTag::IntArray(pack_uuid(uuid)));
    entry.put_int("anger", anger);
    proof {
        reveal(put_under);
        reveal_strlit("uuid");
        reveal_strlit("anger");
        assert("uuid"@.len() == 4);
        assert("anger"@.len() == 5);
    }
    NbtTag::Compound(entry)
}

/// The grudge that is found, where it is whole.
fn read_grudge(tag: &NbtTag) -> (r: Option<(u128, i32)>)
    ensures
        r == found_grudge(tag@),
{
    let entry: &NbtCompound = match tag.extract_compound() {
        Some(entry) => entry,
        None => {
            return None;
        },
    };
    let words: &Vec<i32> = match entry.get_int_array("uuid") {
        Some(words) => words,
        None => {
            return None;
        },
    };
    let uuid: u128 = match unpack_uuid(words) {
        Some(uuid) => uuid,
        None => {
            return None;
        },
    };
    match entry.get_int("anger") {
        Some(anger) => if anger >= 0 {
            Some((uuid, anger))
        } else {
            None
        },
        None => None,
    }
}

impl WardenEntity {
    /// Saves the warden, which is the living entity, beside what is saved already: one grudge
    /// for everyone that it is angry at, in no particular order.
    pub fn write_nbt(&self, living: &LivingEntity, nbt: &mut NbtCompound)
        ensures
            exists|pairs: Seq<(u128, i32)>| #[trigger]
                lists_anger(self.anger_management.anger(), pairs) && is_saved(
                    *old(nbt),
                    *final(nbt),
                    *living,
                    pairs,
                ),
            final(nbt).held == old(nbt).held,
    {
        living.write_nbt(nbt);
        let pairs: Vec<(u128, i32)> = self.anger_management.suspect_pairs();
        assert(lists_anger(self.anger_management.anger(), pairs@));
        let mut suspects: Vec<NbtTag> = Vec::new();
        let mut i: usize = 0;
        assert(values_of(suspects@) =~= grudge_values(pairs@.take(0)));
        while i < pairs.len()
            invariant
                i <= pairs@.len(),
                values_of(suspects@) == grudge_values(pairs@.take(i as int)),
            decreases pairs.len() - i,
        {
            let (uuid, anger): (u128, i32) = pairs[i];
            let tag: NbtTag = save_grudge(uuid, anger);
            proof {
                lemma_values_pushed(suspects@, tag);
            }
            suspects.push(tag);
            i = i + 1;
            assert(values_of(suspects@) =~= grudge_values(pairs@.take(i as int)));
        }
        assert(pairs@.take(i as int) =~= pairs@);
        let mut anger: NbtCompound = NbtCompound::new();
        anger.put("suspects", NbtTag::List(suspects));
        proof {
            reveal(put_under);
            assert(NbtValue::Compound(anger@, anger.held) == anger_value(pairs@));
        }
        nbt.put_compound("anger", anger);
    }

    /// `after` is the warden once it has been read from what is saved: it takes up the grudges
    /// that are found, or holds none at all where none are saved.
    pub open spec fn spec_reads(self, after: WardenEntity, nbt: NbtCompound) -> bool {
        &&& after.anger_management.anger() == (match found_suspects(nbt) {
            Some(found) => restored(self.anger_management.anger(), found_grudges(found)),
            None => Map::empty(),
        })
        &&& after.anger_management.order() == (match found_suspects(nbt) {
            Some(found) => restored_order(self.anger_management.order(), found_grudges(found)),
            None => Seq::empty(),
        })
        &&& after == WardenEntity { anger_management: after.anger_management, ..self }
    }

    /// Reads the warden, which is the living entity, from what is saved.
    pub fn read_nbt(
        &mut self,
        living: &mut LivingEntity,
        nbt: &NbtCompound,
        max_absorption: Rank32,
    )
        requires
            old(self).wf(),
            old(living).wf(),
        ensures
            final(self).wf(),
            final(living).wf(),
            old(living).spec_reads(*final(living), *nbt, max_absorption),
            old(self).spec_reads(*final(self), *nbt),
    {
        living.read_nbt(nbt, max_absorption);
        let suspects: Option<&Vec<NbtTag>> = match nbt.get_compound("anger") {
            Some(anger) => anger.get_list("suspects"),
            None => None,
        };
        match suspects {
            Some(found) => self.take_up_grudges(found),
            None => {
                self.anger_management = AngerManagement::default();
            },
        }
    }

    /// Takes up the grudges that are found whole and leaves out all others. An anger
    /// above the limit counts as the limit.
    fn take_up_grudges(&mut self, found: &Vec<NbtTag>)
        requires
            old(self).wf(),
        ensures
            final(self).wf(),
            final(self).anger_management.anger() == restored(
                old(self).anger_management.anger(),
                found_grudges(values_of(found@)),
            ),
            final(self).anger_management.order() == restored_order(
                old(self).anger_management.order(),
                found_grudges(values_of(found@)),
            ),
            *final(self) == (WardenEntity {
                anger_management: final(self).anger_management,
                ..*old(self)
            }),
    {
        let ghost values = values_of(found@);
        proof {
            lemma_values_of(found@);
        }
        let mut i: usize = 0;
        while i < found.len()
            invariant
                i <= found@.len(),
                values.len() == found@.len(),
                forall|k: int| 0 <= k < found@.len() ==> #[trigger] values[k] == found@[k]@,
                self.wf(),
                self.anger_management.anger() == restored(
                    old(self).anger_management.anger(),
                    found_grudges(values.take(i as int)),
                ),
                self.anger_management.order() == restored_order(
                    old(self).anger_management.order(),
                    found_grudges(values.take(i as int)),
                ),
                *self == (WardenEntity { anger_management: self.anger_management, ..*old(self) }),
            decreases found.len() - i,
        {
            let ghost before = found_grudges(values.take(i as int));
            assert(values.take(i as int + 1).drop_last() =~= values.take(i as int));
            assert(values[i as int] == found@[i as int]@);
            if let Some((uuid, anger)) = read_grudge(&found[i]) {
                assert(before.push((uuid, anger)).drop_last() =~= before);
                self.anger_management.insert_saved(uuid, anger);
            }
            i = i + 1;
        }
        assert(values.take(i as int) =~= values);
    }
}

/// A grudge that is saved is found whole.
proof fn lemma_saved_grudge_is_found(pair: (u128, i32))
    requires
        pair.1 >= 0,
    ensures
        found_grudge(grudge_value(pair)) == Some(pair),
{
    reveal_strlit("uuid");
    reveal_strlit("anger");
    assert("uuid"@.len() == 4);
    assert("anger"@.len() == 5);
    law_uuid_comes_back(pair.0);
}

/// Grudges that are saved are found whole, in order.
proof fn lemma_saved_grudges_are_found(pairs: Seq<(u128, i32)>)
    requires
        forall|i: int| 0 <= i < pairs.len() ==> (#[trigger] pairs[i]).1 >= 0,
    ensures
        found_grudges(grudge_values(pairs)) == pairs,
    decreases pairs.len(),
{
    if pairs.len() > 0 {
        assert(grudge_values(pairs).drop_last() =~= grudge_values(pairs.drop_last()));
        assert(pairs[pairs.len() - 1].1 >= 0);
        assert forall|i: int| 0 <= i < pairs.drop_last().len() implies (
        #[trigger] pairs.drop_last()[i]).1 >= 0 by {
            assert(pairs[i].1 >= 0);
        }
        lemma_saved_grudges_are_found(pairs.drop_last());
        lemma_saved_grudge_is_found(pairs.last());
        assert(pairs.drop_last().push(pairs.last()) =~= pairs);
    } else {
        assert(grudge_values(pairs) =~= Seq::empty());
        assert(found_grudges(grudge_values(pairs)) =~= pairs);
    }
}

/// Law: a warden that holds nothing against anyone and is read from what was saved of another
/// is as angry as that one was, at everyone, where no anger was below 0 or above the limit.
/// `nbt` holds nothing but what was saved.
pub proof fn law_grudges_come_back(
    warden: WardenEntity,
    living: LivingEntity,
    pairs: Seq<(u128, i32)>,
    nbt: NbtCompound,
    blank: WardenEntity,
    after: WardenEntity,
)
    requires
        forall|uuid: u128| #[trigger]
            warden.anger_management.anger().contains_key(uuid) ==> 0
                <= warden.anger_management.anger()[uuid] <= MAX_ANGER,
        lists_anger(warden.anger_management.anger(), pairs),
        forall|name: Seq<char>| #[trigger]
            nbt.spec_get(name) == saved_warden(living, pairs, name),
        blank.anger_management.anger() == Map::<u128, i32>::empty(),
        blank.spec_reads(after, nbt),
    ensures
        after.anger_management.anger() == warden.anger_management.anger(),
{
    reveal_strlit("Health");
    reveal_strlit("AbsorptionAmount");
    reveal_strlit("fall_distance");
    reveal_strlit("active_effects");
    reveal_strlit("anger");
    assert("Health"@.len() == 6);
    assert("AbsorptionAmount"@.len() == 16);
    assert("fall_distance"@.len() == 13);
    assert("active_effects"@.len() == 14);
    assert("anger"@.len() == 5);
    assert(found_suspects(nbt) == Some(grudge_values(pairs)));
    assert forall|i: int| 0 <= i < pairs.len() implies 0 <= (#[trigger] pairs[i]).1
        <= MAX_ANGER by {
        assert(warden.anger_management.anger().contains_key(pairs[i].0));
    }
    lemma_saved_grudges_are_found(pairs);
    law_saved_anger_comes_back(pairs, warden.anger_management.anger());
}

/// Law: a uuid is saved as four words, the highest first, each read as a signed number; and four words,
/// no more and no fewer, are read back as the uuid.
pub proof fn law_words_of_a_uuid(
    uuid: u128,
    words: Vec<i32>,
    back: Option<u128>,
    other: Vec<i32>,
    of_other: Option<u128>,
)
    requires
        call_ensures(pack_uuid, (uuid,), words),
        call_ensures(unpack_uuid, (&words,), back),
        call_ensures(unpack_uuid, (&other,), of_other),
    ensures
        words@.len() == 4,
        back == Some(uuid),
        of_other is Some <==> other@.len() == 4,
        ({
            let first = if words@[0] < 0 {
                words@[0] + 0x1_0000_0000
            } else {
                words@[0] as int
            };
            let second = if words@[1] < 0 {
                words@[1] + 0x1_0000_0000
            } else {
                words@[1] as int
            };
            let third = if words@[2] < 0 {
                words@[2] + 0x1_0000_0000
            } else {
                words@[2] as int
            };
            let fourth = if words@[3] < 0 {
                words@[3] + 0x1_0000_0000
            } else {
                words@[3] as int
            };
            uuid == (first * 0x1_0000_0000 + second) * 0x1_0000_0000_0000_0000 + third
                * 0x1_0000_0000 + fourth
        }),
{
    law_uuid_comes_back(uuid);
}

/// Law: the grudges of a warden are saved as the list `suspects` in the compound `anger`, one for each
/// of those it is angry at, each with the words of its `uuid` and with its `anger`.
pub proof fn law_grudges_are_saved_as_a_list(
    warden: WardenEntity,
    living: LivingEntity,
    nbt: &mut NbtCompound,
    i: int,
)
    requires
        call_ensures(WardenEntity::write_nbt, (&warden, &living, nbt), ()),
        old(nbt).spec_get("anger"@) is None,
    ensures
        final(nbt).spec_get("anger"@) is Some,
        final(nbt).spec_get("anger"@)->0 is Compound,
        final(nbt).spec_get("anger"@)->0->Compound_0.contains_key("suspects"@),
        final(nbt).spec_get("anger"@)->0->Compound_0["suspects"@] is List,
        ({
            let grudges = final(nbt).spec_get("anger"@)->0->Compound_0["suspects"@]->List_0;
            let fields = grudges[i]->Compound_0;
            &&& grudges.len() == warden.anger_management.anger().len()
            &&& 0 <= i < grudges.len() ==> {
                &&& grudges[i] is Compound
                &&& fields.contains_key("uuid"@)
                &&& fields["uuid"@] is IntArray
                &&& fields["uuid"@]->IntArray_0.len() == 4
                &&& fields.contains_key("anger"@)
                &&& fields["anger"@] is Int
                &&& exists|uuid: u128| #[trigger]
                    warden.anger_management.anger().contains_key(uuid)
                        && warden.anger_management.anger()[uuid] == fields["anger"@]->Int_0
                        && words_of(uuid) == fields["uuid"@]->IntArray_0
            }
        }),
{
    let pairs = choose|pairs: Seq<(u128, i32)>| #[trigger]
        lists_anger(warden.anger_management.anger(), pairs) && is_saved(
            *old(nbt),
            *final(nbt),
            living,
            pairs,
        );
    reveal_strlit("Health");
    reveal_strlit("AbsorptionAmount");
    reveal_strlit("fall_distance");
    reveal_strlit("active_effects");
    reveal_strlit("anger");
    reveal_strlit("uuid");
    assert("anger"@.len() == 5);
    assert("uuid"@.len() == 4);
    assert("Health"@.len() == 6);
    assert("AbsorptionAmount"@.len() == 16);
    assert("fall_distance"@.len() == 13);
    assert("active_effects"@.len() == 14);
    assert(living.spec_saved("anger"@) is None);
    let grudges = grudge_values(pairs);
    if 0 <= i < grudges.len() {
        assert(grudges[i] == grudge_value(pairs[i]));
        assert(warden.anger_management.anger().contains_key(pairs[i].0));
    }
}

/// Law: a warden for which no grudges were saved holds none when it is read. One grudge that was saved
/// whole is held, up to 150, and one that is not whole is not; nothing else of the warden changes.
pub proof fn law_what_is_read_of_a_warden(
    warden: &mut WardenEntity,
    living: &mut LivingEntity,
    nbt: NbtCompound,
    max_absorption: Rank32,
    anger: Map<Seq<char>, NbtValue>,
    fields: Map<Seq<char>, NbtValue>,
    words: Seq<i32>,
    number: i32,
)
    requires
        call_ensures(WardenEntity::read_nbt, (warden, living, &nbt, max_absorption), ()),
        old(warden).anger_management.anger() == Map::<u128, i32>::empty(),
    ensures
        nbt.spec_get("anger"@) is None ==> final(warden).anger_management.anger() == Map::<
            u128,
            i32,
        >::empty(),
        nbt.spec_get("anger"@) == Some(NbtValue::Compound(anger, None)) && anger.contains_key(
            "suspects"@,
        ) && anger["suspects"@] == NbtValue::List(seq![NbtValue::Compound(fields, None)])
            && fields.contains_key("uuid"@) && fields["uuid"@] == NbtValue::IntArray(words)
            && fields.contains_key("anger"@) && fields["anger"@] == NbtValue::Int(number) ==> {
            let held = final(warden).anger_management.anger();
            let uuid = uuid_of(words) as u128;
            &&& words.len() == 4 && 0 <= number <= 150 ==> held.contains_key(uuid) && held[uuid]
                == number
            &&& words.len() == 4 && number > 150 ==> held.contains_key(uuid) && held[uuid] == 150
            &&& words.len() != 4 || number < 0 ==> held == Map::<u128, i32>::empty()
        },
        final(warden).target == old(warden).target,
        final(warden).disturbance_location == old(warden).disturbance_location,
{
    reveal_with_fuel(found_grudges, 2);
    reveal_with_fuel(restored, 2);
    let list = seq![NbtValue::Compound(fields, None)];
    assert(list.last() == NbtValue::Compound(fields, None));
    assert(list.drop_last().len() == 0);
}

} // verus!
