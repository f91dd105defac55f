//! The named-address binding set a package is compiled against: the
//! package's own placeholder bound to the derived address, and the deployer
//! placeholder bound to the owner.

use vstd::prelude::*;
use vstd::string::StringExecFns;
use crate::address::Address;

verus! {

/// One named-address binding handed to the package builder: a symbolic
/// placeholder and the concrete address compiled in its place.
pub struct NamedAddressBinding {
    pub name: String,
    pub address: Address,
}

/// The symbolic name under which the package refers to its own future
/// address.
pub fn package_placeholder() -> (r: String)
    ensures
        r@ == "punkninja"@,
{
    String::from_str("punkninja")
}

/// The symbolic name under which the package refers to the deploying owner.
pub fn deployer_placeholder() -> (r: String)
    ensures
        r@ == "deployer"@,
{
    String::from_str("deployer")
}

/// The binding set passed to the package builder: exactly two entries, the
/// package placeholder bound to the derived address and the deployer
/// placeholder bound to the owner — never omitted, never swapped.
pub fn builder_bindings(owner: &Address, derived: &Address) -> (r: Vec<NamedAddressBinding>)
    ensures
        r@.len() == 2,
        r@[0].name@ == "punkninja"@,
        r@[0].address@ == derived@,
        r@[1].name@ == "deployer"@,
        r@[1].address@ == owner@,
{
    let mut r: Vec<NamedAddressBinding> = Vec::new();
    r.push(NamedAddressBinding { name: package_placeholder(), address: derived.clone() });
    r.push(NamedAddressBinding { name: deployer_placeholder(), address: owner.clone() });
    r
}

} // verus!
