use vstd::prelude::*;
use vstd::string::StringExecFns;
use crate::model::{GroupError, OwnershipWrapper};

verus! {

/// The hardware ecosystem whose peripheral handle type the generated code uses.
#[derive(PartialEq, Eq, Structural, Clone, Copy, Debug)]
pub enum Ecosystem {
    Stm32,
    Nrf,
    /// A stand-in `Peri` type in scope, for tests.
    Test,
}

/// How many of the flags are set.
pub open spec fn flags_set(stm32: bool, nrf: bool, test: bool) -> int {
    (if stm32 { 1int } else { 0int }) + (if nrf { 1int } else { 0int }) + (if test { 1int } else { 0int })
}

/// Picks the ecosystem from the build's flags; exactly one must be set.
pub fn select_ecosystem(stm32: bool, nrf: bool, test: bool) -> (r: Result<Ecosystem, GroupError>)
    ensures
        flags_set(stm32, nrf, test) != 1 ==> r == Err::<Ecosystem, GroupError>(GroupError::EcosystemConfiguration),
        flags_set(stm32, nrf, test) == 1 ==> r == Ok::<Ecosystem, GroupError>(
            if stm32 { Ecosystem::Stm32 } else if nrf { Ecosystem::Nrf } else { Ecosystem::Test },
        ),
{
    if stm32 && !nrf && !test {
        Ok(Ecosystem::Stm32)
    } else if nrf && !stm32 && !test {
        Ok(Ecosystem::Nrf)
    } else if test && !stm32 && !nrf {
        Ok(Ecosystem::Test)
    } else {
        Err(GroupError::EcosystemConfiguration)
    }
}

/// The path of the handle type of each ecosystem.
pub open spec fn wrapper_path(e: Ecosystem) -> Seq<char> {
    match e {
        Ecosystem::Stm32 => "::embassy_stm32::Peri"@,
        Ecosystem::Nrf => "::embassy_nrf::Peri"@,
        Ecosystem::Test => "Peri"@,
    }
}

/// The scope that every handle is held for.
pub open spec fn static_scope() -> Seq<char> {
    "static"@
}

/// The ownership wrapper of an ecosystem: its handle type, held for the
/// `'static` scope.
pub fn ownership_wrapper(e: Ecosystem) -> (r: OwnershipWrapper)
    ensures
        r.path@ == wrapper_path(e),
        r.scope is Some,
        r.scope->Some_0@ == static_scope(),
{
    let path = match e {
        Ecosystem::Stm32 => String::from_str("::embassy_stm32::Peri"),
        Ecosystem::Nrf => String::from_str("::embassy_nrf::Peri"),
        Ecosystem::Test => String::from_str("Peri"),
    };
    OwnershipWrapper { path, scope: Some(String::from_str("static")) }
}

} // verus!
