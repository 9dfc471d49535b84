//! The command that shows the seed of the world.

use vstd::prelude::*;
use vstd::string::*;

use super::{
    is_registered, AlreadyRegistered, CommandDispatcher, Permission, PermissionDefault,
    PermissionLvl, PermissionRegistry, PermissionValue,
};
use super::locate::said;
use crate::text::{decimal, law_number_comes_back, number_of, number_text};

verus! {

/// The bits of a seed, read as a signed number.
pub open spec fn signed_seed(seed: u64) -> int {
    if seed < 0x8000_0000_0000_0000 {
        seed as int
    } else {
        seed - 0x1_0000_0000_0000_0000
    }
}

/// The lower half of the bits of a seed, read as a signed number.
pub open spec fn low_half(seed: u64) -> int {
    let low = seed as int % 0x1_0000_0000;
    if low < 0x8000_0000 {
        low
    } else {
        low - 0x1_0000_0000
    }
}

/// The bits of a seed, read as a signed number.
pub fn sign_seed(seed: u64) -> (r: i64)
    ensures
        r == signed_seed(seed),
{
    if seed < 0x8000_0000_0000_0000 {
        seed as i64
    } else {
        (seed as i128 - 0x1_0000_0000_0000_0000) as i64
    }
}

/// What the command shows and gives back.
pub struct SeedShown {
    /// The text that is shown.
    pub text: String,
    /// The text that a click copies.
    pub copied: String,
    /// What the command gives back.
    pub result: i32,
}

/// The seed as a text. A seed is kept as an unsigned number, but it is shown as the signed
/// number with the same bits.
pub fn format_seed(seed: u64) -> (r: String)
    ensures
        r@ == decimal(signed_seed(seed)),
{
    number_text(sign_seed(seed))
}

/// What the command gives back for a seed.
pub fn command_result(seed: u64) -> (r: i32)
    ensures
        r == low_half(seed),
{
    let low: u64 = seed % 0x1_0000_0000;
    if low < 0x8000_0000 {
        low as i32
    } else {
        (low as i64 - 0x1_0000_0000) as i32
    }
}

/// Shows the seed: a click on it copies what is shown.
pub fn execute(seed: u64) -> (r: SeedShown)
    ensures
        r.text@ == decimal(signed_seed(seed)),
        r.copied@ == r.text@,
        r.result == low_half(seed),
{
    SeedShown {
        text: format_seed(seed),
        copied: format_seed(seed),
        result: command_result(seed),
    }
}

/// Law: the text of a seed tells it from every other: read as a signed number, it gives back
/// the bits of the seed.
pub proof fn law_seed_text_is_unique(first: u64, second: u64)
    requires
        decimal(signed_seed(first)) == decimal(signed_seed(second)),
    ensures
        first == second,
        number_of(decimal(signed_seed(first))) == signed_seed(first),
{
    law_number_comes_back(signed_seed(first));
    law_number_comes_back(signed_seed(second));
}

/// Law: what the command gives back is what its text says, cut down to its lower half.
pub proof fn law_result_is_low_half_of_text(seed: u64)
    ensures
        (number_of(decimal(signed_seed(seed))) - low_half(seed)) % 0x1_0000_0000 == 0,
{
    law_number_comes_back(signed_seed(seed));
}

/// The permission that the command asks for.
pub open spec fn permission() -> PermissionValue {
    PermissionValue {
        name: "minecraft:command.seed"@,
        description: "Displays the world seed."@,
        default: PermissionDefault::Op(PermissionLvl::Two),
    }
}

/// Registers the command, and the permission that it asks for: operators of the second level
/// have it. It may not be there already.
pub fn register(dispatcher: &mut CommandDispatcher, registry: &mut PermissionRegistry)
    requires
        !is_registered(old(registry)@, permission().name),
    ensures
        final(registry)@ == old(registry)@.push(permission()),
        said(final(dispatcher).own@) == said(old(dispatcher).own@).push("seed"@),
        final(dispatcher).fallback == old(dispatcher).fallback,
{
    let permission: Permission = Permission {
        name: String::from_str("minecraft:command.seed"),
        description: String::from_str("Displays the world seed."),
        default: PermissionDefault::Op(PermissionLvl::Two),
    };
    let added: Result<(), AlreadyRegistered> = registry.register_permission(permission);
    assert(added is Ok);
    dispatcher.own.push("seed");
    assert(said(dispatcher.own@) =~= said(old(dispatcher).own@).push("seed"@));
}

/// Law: a seed is shown as the number with a sign that has its bits: up to the half of all seeds as it
/// is, and above as what is missing to all of them. A click copies just what is shown, and what the
/// command gives back has the same lower half.
pub proof fn law_what_is_shown_of_a_seed(
    seed: u64,
    signed: i64,
    text: String,
    result: i32,
    r: SeedShown,
)
    requires
        call_ensures(sign_seed, (seed,), signed),
        call_ensures(format_seed, (seed,), text),
        call_ensures(command_result, (seed,), result),
        call_ensures(execute, (seed,), r),
    ensures
        signed >= 0 ==> signed == seed,
        signed < 0 ==> signed + 0x1_0000_0000_0000_0000 == seed,
        number_of(text@) == signed,
        r.text@ == text@,
        r.copied@ == text@,
        r.result == result,
        (result - seed) % 0x1_0000_0000 == 0,
{
    law_number_comes_back(signed as int);
}

/// Law: with the command comes its permission, for operators of the second level.
pub proof fn law_who_may_see_the_seed(
    dispatcher: &mut CommandDispatcher,
    registry: &mut PermissionRegistry,
)
    requires
        call_ensures(register, (dispatcher, registry), ()),
    ensures
        final(registry).permissions@.len() == old(registry).permissions@.len() + 1,
        final(registry).permissions@.last().name@ == "minecraft:command.seed"@,
        final(registry).permissions@.last().description@ == "Displays the world seed."@,
        final(registry).permissions@.last().default == PermissionDefault::Op(PermissionLvl::Two),
        final(dispatcher).own@.len() == old(dispatcher).own@.len() + 1,
        final(dispatcher).own@.last()@ == "seed"@,
        final(dispatcher).fallback == old(dispatcher).fallback,
{
    assert(final(registry)@.len() == final(registry).permissions@.len());
    assert(old(registry)@.len() == old(registry).permissions@.len());
    assert(final(registry)@.last() == final(registry).permissions@.last()@);
    assert(said(final(dispatcher).own@).len() == final(dispatcher).own@.len());
    assert(said(old(dispatcher).own@).len() == old(dispatcher).own@.len());
    assert(said(final(dispatcher).own@).last() == final(dispatcher).own@.last()@);
}

} // verus!
