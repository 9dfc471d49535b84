//! Saved data: values under names.

use vstd::prelude::*;
use vstd::string::*;

use super::effect::Effect;
use super::rank::{Rank32, Rank64};

verus! {

/// A stack of items, known by a number under which the surrounding program keeps it.
#[derive(Clone, Copy, Debug, PartialEq, Eq, Structural)]
pub struct StackId(pub u64);

/// What something with names of its own has written into a compound.
#[derive(Clone, Copy, Debug, PartialEq, Eq, Structural)]
pub enum Held {
    Stack(StackId),
    Effect(Effect),
}

/// A saved value.
pub enum NbtTag {
    Byte(i8),
    Short(i16),
    Int(i32),
    Float(Rank32),
    Double(Rank64),
    Text(String),
    IntArray(Vec<i32>),
    List(Vec<NbtTag>),
    Compound(NbtCompound),
}

/// Values under names.
pub struct NbtCompound {
    pub entries: Vec<(String, NbtTag)>,
    /// The stack or the effect that has written itself into the compound, where one has.
    pub held: Option<Held>,
}

/// What a saved value is.
pub enum NbtValue {
    Byte(i8),
    Short(i16),
    Int(i32),
    Float(Rank32),
    Double(Rank64),
    Text(Seq<char>),
    IntArray(Seq<i32>),
    List(Seq<NbtValue>),
    Compound(Map<Seq<char>, NbtValue>, Option<Held>),
}

/// What a saved value is.
pub open spec fn value_of(tag: NbtTag) -> NbtValue
    decreases tag,
{
    match tag {
        NbtTag::Byte(number) => NbtValue::Byte(number),
        NbtTag::Short(number) => NbtValue::Short(number),
        NbtTag::Int(number) => NbtValue::Int(number),
        NbtTag::Float(number) => NbtValue::Float(number),
        NbtTag::Double(number) => NbtValue::Double(number),
        NbtTag::Text(text) => NbtValue::Text(text@),
        NbtTag::IntArray(numbers) => NbtValue::IntArray(numbers@),
        NbtTag::List(list) => NbtValue::List(values_of(list@)),
        NbtTag::Compound(compound) => NbtValue::Compound(
            values_under(compound.entries@),
            compound.held,
        ),
    }
}

/// What the values of a list are.
pub open spec fn values_of(list: Seq<NbtTag>) -> Seq<NbtValue>
    decreases list,
{
    if list.len() == 0 {
        Seq::empty()
    } else {
        values_of(list.drop_last()).push(value_of(list.last()))
    }
}

/// The values by their names: under a name is the first that was put there.
pub open spec fn values_under(entries: Seq<(String, NbtTag)>) -> Map<Seq<char>, NbtValue>
    decreases entries,
{
    if entries.len() == 0 {
        Map::empty()
    } else {
        put_under(
            values_under(entries.drop_last()),
            entries.last().0@,
            value_of(entries.last().1),
        )
    }
}

/// The values once one has been put under a name. A value that is there already stays.
#[verifier::opaque]
pub open spec fn put_under(
    values: Map<Seq<char>, NbtValue>,
    name: Seq<char>,
    value: NbtValue,
) -> Map<Seq<char>, NbtValue> {
    if values.contains_key(name) {
        values
    } else {
        values.insert(name, value)
    }
}

impl View for NbtTag {
    type V = NbtValue;

    open spec fn view(&self) -> NbtValue {
        value_of(*self)
    }
}

impl View for NbtCompound {
    type V = Map<Seq<char>, NbtValue>;

    open spec fn view(&self) -> Map<Seq<char>, NbtValue> {
        values_under(self.entries@)
    }
}

/// A whole number, where that is what the value is.
pub open spec fn as_int(value: Option<NbtValue>) -> Option<i32> {
    match value {
        Some(NbtValue::Int(number)) => Some(number),
        _ => None,
    }
}

/// A byte, where that is what the value is.
pub open spec fn as_byte(value: Option<NbtValue>) -> Option<i8> {
    match value {
        Some(NbtValue::Byte(number)) => Some(number),
        _ => None,
    }
}

/// A truth value, where the value is a byte: anything but 0 is true.
pub open spec fn as_bool(value: Option<NbtValue>) -> Option<bool> {
    match value {
        Some(NbtValue::Byte(number)) => Some(number != 0),
        _ => None,
    }
}

/// A real number, where that is what the value is.
pub open spec fn as_float(value: Option<NbtValue>) -> Option<Rank32> {
    match value {
        Some(NbtValue::Float(number)) => Some(number),
        _ => None,
    }
}

/// A text, where that is what the value is.
pub open spec fn as_text(value: Option<NbtValue>) -> Option<Seq<char>> {
    match value {
        Some(NbtValue::Text(text)) => Some(text),
        _ => None,
    }
}

/// A 16-bit number, where that is what the value is.
pub open spec fn as_short(value: Option<NbtValue>) -> Option<i16> {
    match value {
        Some(NbtValue::Short(number)) => Some(number),
        _ => None,
    }
}

/// Whole numbers in a row, where that is what the value is.
pub open spec fn as_int_array(value: Option<NbtValue>) -> Option<Seq<i32>> {
    match value {
        Some(NbtValue::IntArray(numbers)) => Some(numbers),
        _ => None,
    }
}

/// A list, where that is what the value is.
pub open spec fn as_list(value: Option<NbtValue>) -> Option<Seq<NbtValue>> {
    match value {
        Some(NbtValue::List(list)) => Some(list),
        _ => None,
    }
}

/// The values of a compound, where that is what the value is.
pub open spec fn as_compound(value: Option<NbtValue>) -> Option<Map<Seq<char>, NbtValue>> {
    match value {
        Some(NbtValue::Compound(values, _)) => Some(values),
        _ => None,
    }
}

/// What has written itself into a compound, where the value is one.
pub open spec fn as_held(value: Option<NbtValue>) -> Option<Held> {
    match value {
        Some(NbtValue::Compound(_, held)) => held,
        _ => None,
    }
}

/// The value under the name.
pub open spec fn found_under(values: Map<Seq<char>, NbtValue>, name: Seq<char>) -> Option<
    NbtValue,
> {
    if values.contains_key(name) {
        Some(values[name])
    } else {
        None
    }
}

/// The byte that stands for a truth value.
pub open spec fn byte_of(value: bool) -> i8 {
    if value {
        1
    } else {
        0
    }
}

/// What is found under a name once a value has been put under another or the same: a value
/// that is there stays.
pub open spec fn with_value(
    found: Option<NbtValue>,
    name: Seq<char>,
    put_name: Seq<char>,
    value: NbtValue,
) -> Option<NbtValue> {
    match found {
        Some(there) => Some(there),
        None => if name == put_name {
            Some(value)
        } else {
            None
        },
    }
}

impl NbtTag {
    /// The compound, where that is what the value is.
    pub fn extract_compound(&self) -> (r: Option<&NbtCompound>)
        ensures
            match r {
                Some(compound) => self@ == NbtValue::Compound(compound@, compound.held),
                None => as_compound(Some(self@)) is None,
            },
    {
        match self {
            NbtTag::Compound(compound) => Some(compound),
            _ => None,
        }
    }
}

impl NbtCompound {
    /// The value under the name.
    pub open spec fn spec_get(self, name: Seq<char>) -> Option<NbtValue> {
        found_under(self@, name)
    }

    /// No values at all.
    pub fn new() -> (r: Self)
        ensures
            r@ == Map::<Seq<char>, NbtValue>::empty(),
            r.held is None,
            forall|name: Seq<char>| #[trigger] r.spec_get(name) is None,
    {
        NbtCompound { entries: Vec::new(), held: None }
    }

    /// Lets something with names of its own write itself into the compound.
    pub fn hold(&mut self, held: Held)
        ensures
            final(self)@ == old(self)@,
            final(self).held == Some(held),
    {
        self.held = Some(held);
    }

    /// Puts a value under a name. A value that is there already stays.
    pub fn put(&mut self, name: &str, tag: NbtTag)
        ensures
            final(self)@ == put_under(old(self)@, name@, tag@),
            final(self).held == old(self).held,
            forall|other: Seq<char>| #[trigger]
                final(self).spec_get(other) == with_value(
                    old(self).spec_get(other),
                    other,
                    name@,
                    tag@,
                ),
    {
        let ghost before = self.entries@;
        self.entries.push((String::from_str(name), tag));
        proof {
            reveal(put_under);
            assert(self.entries@.drop_last() =~= before);
        }
    }

    /// Puts a whole number under a name.
    pub fn put_int(&mut self, name: &str, number: i32)
        ensures
            final(self)@ == put_under(old(self)@, name@, NbtValue::Int(number)),
            final(self).held == old(self).held,
            forall|other: Seq<char>| #[trigger]
                final(self).spec_get(other) == with_value(
                    old(self).spec_get(other),
                    other,
                    name@,
                    NbtValue::Int(number),
                ),
    {
        self.put(name, NbtTag::Int(number));
    }

    /// Puts a byte under a name.
    pub fn put_byte(&mut self, name: &str, number: i8)
        ensures
            final(self)@ == put_under(old(self)@, name@, NbtValue::Byte(number)),
            final(self).held == old(self).held,
            forall|other: Seq<char>| #[trigger]
                final(self).spec_get(other) == with_value(
                    old(self).spec_get(other),
                    other,
                    name@,
                    NbtValue::Byte(number),
                ),
    {
        self.put(name, NbtTag::Byte(number));
    }

    /// Puts a truth value under a name.
    pub fn put_bool(&mut self, name: &str, value: bool)
        ensures
            final(self)@ == put_under(old(self)@, name@, NbtValue::Byte(byte_of(value))),
            final(self).held == old(self).held,
            forall|other: Seq<char>| #[trigger]
                final(self).spec_get(other) == with_value(
                    old(self).spec_get(other),
                    other,
                    name@,
                    NbtValue::Byte(byte_of(value)),
                ),
    {
        let byte: i8 = if value {
            1
        } else {
            0
        };
        self.put(name, NbtTag::Byte(byte));
    }

    /// Puts a 16-bit number under a name.
    pub fn put_short(&mut self, name: &str, number: i16)
        ensures
            final(self)@ == put_under(old(self)@, name@, NbtValue::Short(number)),
            final(self).held == old(self).held,
            forall|other: Seq<char>| #[trigger]
                final(self).spec_get(other) == with_value(
                    old(self).spec_get(other),
                    other,
                    name@,
                    NbtValue::Short(number),
                ),
    {
        self.put(name, NbtTag::Short(number));
    }

    /// Puts a compound under a name.
    pub fn put_compound(&mut self, name: &str, compound: NbtCompound)
        ensures
            final(self)@ == put_under(
                old(self)@,
                name@,
                NbtValue::Compound(compound@, compound.held),
            ),
            final(self).held == old(self).held,
            forall|other: Seq<char>| #[trigger]
                final(self).spec_get(other) == with_value(
                    old(self).spec_get(other),
                    other,
                    name@,
                    NbtValue::Compound(compound@, compound.held),
                ),
    {
        self.put(name, NbtTag::Compound(compound));
    }

    /// Puts a text under a name.
    pub fn put_string(&mut self, name: &str, text: &str)
        ensures
            final(self)@ == put_under(old(self)@, name@, NbtValue::Text(text@)),
            final(self).held == old(self).held,
            forall|other: Seq<char>| #[trigger]
                final(self).spec_get(other) == with_value(
                    old(self).spec_get(other),
                    other,
                    name@,
                    NbtValue::Text(text@),
                ),
    {
        self.put(name, NbtTag::Text(String::from_str(text)));
    }

    /// The value under the name.
    pub fn get(&self, name: &str) -> (r: Option<&NbtTag>)
        ensures
            match r {
                Some(tag) => self.spec_get(name@) == Some(tag@),
                None => self.spec_get(name@) is None,
            },
    {
        let wanted: String = String::from_str(name);
        let mut i: usize = 0;
        while i < self.entries.len()
            invariant
                i <= self.entries@.len(),
                wanted@ == name@,
                !values_under(self.entries@.take(i as int)).contains_key(name@),
            decreases self.entries.len() - i,
        {
            let entry: &(String, NbtTag) = &self.entries[i];
            proof {
                reveal(put_under);
            }
            assert(self.entries@.take(i as int + 1).drop_last() =~= self.entries@.take(i as int));
            if entry.0 == wanted {
                proof {
                    lemma_first_value_stays(self.entries@, i as int + 1, name@);
                }
                return Some(&entry.1);
            }
            i = i + 1;
        }
        assert(self.entries@.take(i as int) =~= self.entries@);
        None
    }

    /// The whole number under the name.
    pub fn get_int(&self, name: &str) -> (r: Option<i32>)
        ensures
            r == as_int(self.spec_get(name@)),
    {
        match self.get(name) {
            Some(NbtTag::Int(number)) => Some(*number),
            _ => None,
        }
    }

    /// The byte under the name.
    pub fn get_byte(&self, name: &str) -> (r: Option<i8>)
        ensures
            r == as_byte(self.spec_get(name@)),
    {
        match self.get(name) {
            Some(NbtTag::Byte(number)) => Some(*number),
            _ => None,
        }
    }

    /// The truth value under the name.
    pub fn get_bool(&self, name: &str) -> (r: Option<bool>)
        ensures
            r == as_bool(self.spec_get(name@)),
    {
        match self.get(name) {
            Some(NbtTag::Byte(number)) => Some(*number != 0),
            _ => None,
        }
    }

    /// The 16-bit number under the name.
    pub fn get_short(&self, name: &str) -> (r: Option<i16>)
        ensures
            r == as_short(self.spec_get(name@)),
    {
        match self.get(name) {
            Some(NbtTag::Short(number)) => Some(*number),
            _ => None,
        }
    }

    /// The whole numbers in a row under the name.
    pub fn get_int_array(&self, name: &str) -> (r: Option<&Vec<i32>>)
        ensures
            match r {
                Some(numbers) => as_int_array(self.spec_get(name@)) == Some(numbers@),
                None => as_int_array(self.spec_get(name@)) is None,
            },
    {
        match self.get(name) {
            Some(NbtTag::IntArray(numbers)) => Some(numbers),
            _ => None,
        }
    }

    /// The list under the name.
    pub fn get_list(&self, name: &str) -> (r: Option<&Vec<NbtTag>>)
        ensures
            match r {
                Some(list) => as_list(self.spec_get(name@)) == Some(values_of(list@)),
                None => as_list(self.spec_get(name@)) is None,
            },
    {
        match self.get(name) {
            Some(NbtTag::List(list)) => Some(list),
            _ => None,
        }
    }

    /// The compound under the name.
    pub fn get_compound(&self, name: &str) -> (r: Option<&NbtCompound>)
        ensures
            match r {
                Some(compound) => self.spec_get(name@) == Some(
                    NbtValue::Compound(compound@, compound.held),
                ),
                None => as_compound(self.spec_get(name@)) is None,
            },
    {
        match self.get(name) {
            Some(NbtTag::Compound(compound)) => Some(compound),
            _ => None,
        }
    }

    /// The real number under the name.
    pub fn get_float(&self, name: &str) -> (r: Option<Rank32>)
        ensures
            r == as_float(self.spec_get(name@)),
    {
        match self.get(name) {
            Some(NbtTag::Float(number)) => Some(*number),
            _ => None,
        }
    }

    /// The text under the name.
    pub fn get_string(&self, name: &str) -> (r: Option<&String>)
        ensures
            match r {
                Some(text) => as_text(self.spec_get(name@)) == Some(text@),
                None => as_text(self.spec_get(name@)) is None,
            },
    {
        match self.get(name) {
            Some(NbtTag::Text(text)) => Some(text),
            _ => None,
        }
    }
}

/// What is under a name stays there when more values come.
proof fn lemma_first_value_stays(entries: Seq<(String, NbtTag)>, k: int, name: Seq<char>)
    requires
        0 <= k <= entries.len(),
        values_under(entries.take(k)).contains_key(name),
    ensures
        values_under(entries).contains_key(name),
        values_under(entries)[name] == values_under(entries.take(k))[name],
    decreases entries.len() - k,
{
    reveal(put_under);
    if k == entries.len() {
        assert(entries.take(k) =~= entries);
    } else {
        assert(entries.take(k + 1).drop_last() =~= entries.take(k));
        lemma_first_value_stays(entries, k + 1, name);
    }
}

/// A tag at the end of a list adds its value at the end of the values.
pub proof fn lemma_values_pushed(list: Seq<NbtTag>, tag: NbtTag)
    ensures
        values_of(list.push(tag)) == values_of(list).push(tag@),
{
    assert(list.push(tag).drop_last() =~= list);
}

/// The values of a list stand where their tags stand.
pub proof fn lemma_values_of(list: Seq<NbtTag>)
    ensures
        values_of(list).len() == list.len(),
        forall|i: int| 0 <= i < list.len() ==> #[trigger] values_of(list)[i] == list[i]@,
    decreases list.len(),
{
    if list.len() > 0 {
        lemma_values_of(list.drop_last());
        assert forall|i: int| 0 <= i < list.len() implies #[trigger] values_of(list)[i]
            == list[i]@ by {
            if i < list.len() - 1 {
                assert(list.drop_last()[i] == list[i]);
                assert(values_of(list.drop_last())[i] == list[i]@);
            }
        }
    }
}

/// Law: a number that is put under a free name is found there as it was put, and as no other kind of
/// value. A name that is taken keeps its value, and no other name changes.
pub proof fn law_put_number_is_found(
    nbt: &mut NbtCompound,
    name: &str,
    number: i32,
    other: &str,
    found: Option<i32>,
    as_a_byte: Option<i8>,
    of_other: Option<i32>,
    before: Option<i32>,
)
    requires
        call_ensures(NbtCompound::put_int, (nbt, name, number), ()),
        call_ensures(NbtCompound::get_int, (&*final(nbt), name), found),
        call_ensures(NbtCompound::get_byte, (&*final(nbt), name), as_a_byte),
        call_ensures(NbtCompound::get_int, (&*final(nbt), other), of_other),
        call_ensures(NbtCompound::get_int, (&*old(nbt), other), before),
    ensures
        old(nbt).spec_get(name@) is None ==> found == Some(number) && as_a_byte is None,
        old(nbt).spec_get(name@) is Some ==> final(nbt).spec_get(name@) == old(nbt).spec_get(name@),
        other@ != name@ ==> of_other == before,
{
}

/// Law: a byte, a truth value or a 16-bit number that is put under a free name is found there; a byte
/// other than 0 stands for what is true.
pub proof fn law_put_small_numbers_are_found(
    bytes: &mut NbtCompound,
    truths: &mut NbtCompound,
    shorts: &mut NbtCompound,
    name: &str,
    byte: i8,
    truth: bool,
    short: i16,
    found_byte: Option<i8>,
    byte_as_truth: Option<bool>,
    found_truth: Option<bool>,
    truth_as_byte: Option<i8>,
    found_short: Option<i16>,
)
    requires
        call_ensures(NbtCompound::put_byte, (bytes, name, byte), ()),
        call_ensures(NbtCompound::put_bool, (truths, name, truth), ()),
        call_ensures(NbtCompound::put_short, (shorts, name, short), ()),
        call_ensures(NbtCompound::get_byte, (&*final(bytes), name), found_byte),
        call_ensures(NbtCompound::get_bool, (&*final(bytes), name), byte_as_truth),
        call_ensures(NbtCompound::get_bool, (&*final(truths), name), found_truth),
        call_ensures(NbtCompound::get_byte, (&*final(truths), name), truth_as_byte),
        call_ensures(NbtCompound::get_short, (&*final(shorts), name), found_short),
        old(bytes).spec_get(name@) is None,
        old(truths).spec_get(name@) is None,
        old(shorts).spec_get(name@) is None,
    ensures
        found_byte == Some(byte),
        byte_as_truth == Some(byte != 0),
        found_truth == Some(truth),
        truth_as_byte is Some,
        truth ==> truth_as_byte->0 == 1,
        !truth ==> truth_as_byte->0 == 0,
        found_short == Some(short),
{
}

/// Law: a text that is put under a free name is found there as it was put. Under no name is anything in
/// a new compound.
pub proof fn law_put_text_is_found(
    nbt: &mut NbtCompound,
    name: &str,
    text: &str,
    found: Option<&String>,
    fresh: NbtCompound,
    any: Seq<char>,
)
    requires
        call_ensures(NbtCompound::put_string, (nbt, name, text), ()),
        call_ensures(NbtCompound::get_string, (&*final(nbt), name), found),
        call_ensures(NbtCompound::new, (), fresh),
        old(nbt).spec_get(name@) is None,
    ensures
        found is Some,
        found->0@ == text@,
        final(nbt).held == old(nbt).held,
        fresh.spec_get(any) is None,
        fresh.held is None,
{
}

/// Law: a compound that is put under a free name is found there, with all that it holds.
pub proof fn law_put_compound_is_found(
    nbt: &mut NbtCompound,
    name: &str,
    compound: NbtCompound,
    found: Option<&NbtCompound>,
    inner: Seq<char>,
)
    requires
        call_ensures(NbtCompound::put_compound, (nbt, name, compound), ()),
        call_ensures(NbtCompound::get_compound, (&*final(nbt), name), found),
        old(nbt).spec_get(name@) is None,
    ensures
        found is Some,
        found->0.spec_get(inner) == compound.spec_get(inner),
        found->0.held == compound.held,
{
}

/// Law: what is put under a free name is found there as what it is, and nothing is lost by it: a value
/// that was there stays, under this name and under every other.
pub proof fn law_first_value_stays(
    nbt: &mut NbtCompound,
    name: &str,
    tag: NbtTag,
    other: Seq<char>,
)
    requires
        call_ensures(NbtCompound::put, (nbt, name, tag), ()),
    ensures
        old(nbt).spec_get(name@) is None ==> final(nbt).spec_get(name@) == Some(tag@),
        old(nbt).spec_get(other) is Some ==> final(nbt).spec_get(other) == old(nbt).spec_get(other),
        other != name@ ==> final(nbt).spec_get(other) == old(nbt).spec_get(other),
        final(nbt).held == old(nbt).held,
{
}

/// Law: real numbers, rows of numbers and lists are found under their names just where they are what
/// stands there.
pub proof fn law_kinds_of_values_are_told_apart(
    nbt: NbtCompound,
    name: &str,
    number: Option<Rank32>,
    numbers: Option<&Vec<i32>>,
    list: Option<&Vec<NbtTag>>,
)
    requires
        call_ensures(NbtCompound::get_float, (&nbt, name), number),
        call_ensures(NbtCompound::get_int_array, (&nbt, name), numbers),
        call_ensures(NbtCompound::get_list, (&nbt, name), list),
    ensures
        nbt.spec_get(name@) is None ==> number is None && numbers is None && list is None,
        number is Some ==> nbt.spec_get(name@) == Some(NbtValue::Float(number->0)),
        numbers is Some ==> nbt.spec_get(name@) == Some(NbtValue::IntArray(numbers->0@)),
        list is Some ==> nbt.spec_get(name@) == Some(NbtValue::List(values_of(list->0@))),
        nbt.spec_get(name@) is Some ==> (number is Some <==> nbt.spec_get(name@)->0 is Float) && (
        numbers is Some <==> nbt.spec_get(name@)->0 is IntArray) && (list is Some
            <==> nbt.spec_get(name@)->0 is List),
{
}

/// Law: a value is taken for a compound just where it is one, with all that it holds.
pub proof fn law_compounds_are_taken_out(tag: NbtTag, r: Option<&NbtCompound>)
    requires
        call_ensures(NbtTag::extract_compound, (&tag,), r),
    ensures
        r is Some <==> tag@ is Compound,
        r is Some ==> tag@ == NbtValue::Compound(r->0@, r->0.held),
{
}

/// Law: what writes itself into a compound changes no value of it.
pub proof fn law_holding_keeps_the_values(nbt: &mut NbtCompound, held: Held)
    requires
        call_ensures(NbtCompound::hold, (nbt, held), ()),
    ensures
        final(nbt).held == Some(held),
        final(nbt)@ == old(nbt)@,
{
}

/// Law: a value is found under its name as what it is, and just where there is one.
pub proof fn law_values_are_found_as_they_are(nbt: NbtCompound, name: &str, r: Option<&NbtTag>)
    requires
        call_ensures(NbtCompound::get, (&nbt, name), r),
    ensures
        r is Some <==> nbt.spec_get(name@) is Some,
        r is Some ==> nbt.spec_get(name@) == Some(r->0@),
{
}

} // verus!
