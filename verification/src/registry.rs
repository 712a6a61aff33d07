//! Registered contract entries, the storage keys of the registry, and the
//! mathematical operations on a registry: lookup by address and removal of
//! an address.

use vstd::prelude::*;

use crate::address::ContractAddress;

verus! {

/// What kind of contract an entry of the registry refers to.
#[derive(Clone, Copy, Debug, PartialEq, Eq, Structural)]
pub enum ContractKind {
    BountyEscrow,
    ProgramEscrow,
    SorobanEscrow,
    GrainlifyCore,
}

/// The keys under which the registry keeps its state in instance storage.
#[derive(Clone, Copy, Debug, PartialEq, Eq, Structural)]
pub enum DataKey {
    /// The list of registered contracts.
    Registry,
    /// The administrator allowed to change the registry.
    Admin,
}

/// One registered contract.
#[derive(Debug, PartialEq, Eq)]
pub struct RegisteredContract {
    pub address: ContractAddress,
    pub kind: ContractKind,
    /// Numeric version reported by the contract at registration time.
    pub version: u32,
}

/// The mathematical value of a [`RegisteredContract`].
pub struct EntryView {
    pub address: Seq<u8>,
    pub kind: ContractKind,
    pub version: u32,
}

impl View for RegisteredContract {
    type V = EntryView;

    open spec fn view(&self) -> EntryView {
        EntryView { address: self.address@, kind: self.kind, version: self.version }
    }
}

impl Clone for RegisteredContract {
    fn clone(&self) -> (res: RegisteredContract)
        ensures
            res@ == self@,
    {
        RegisteredContract { address: self.address.clone(), kind: self.kind, version: self.version }
    }
}

/// The entries of a vector of registered contracts, each by its view.
pub open spec fn entries_view(v: Seq<RegisteredContract>) -> Seq<EntryView> {
    v.map_values(|e: RegisteredContract| e@)
}

/// Whether some entry of `reg` has the address `addr`.
pub open spec fn is_registered(reg: Seq<EntryView>, addr: Seq<u8>) -> bool {
    exists|i: int| 0 <= i < reg.len() && #[trigger] reg[i].address == addr
}

/// The first entry of `reg` with the address `addr`, if there is one.
pub open spec fn lookup(reg: Seq<EntryView>, addr: Seq<u8>) -> Option<EntryView>
    decreases reg.len(),
{
    if reg.len() == 0 {
        None
    } else {
        match lookup(reg.drop_last(), addr) {
            Some(e) => Some(e),
            None => if reg.last().address == addr {
                Some(reg.last())
            } else {
                None
            },
        }
    }
}

/// `reg` with every entry of the address `addr` taken out, the others kept
/// in their order.
pub open spec fn without(reg: Seq<EntryView>, addr: Seq<u8>) -> Seq<EntryView>
    decreases reg.len(),
{
    if reg.len() == 0 {
        reg
    } else {
        let rest = without(reg.drop_last(), addr);
        if reg.last().address == addr {
            rest
        } else {
            rest.push(reg.last())
        }
    }
}

/// How many entries of `reg` have the address `addr`.
pub open spec fn occurrences(reg: Seq<EntryView>, addr: Seq<u8>) -> nat
    decreases reg.len(),
{
    if reg.len() == 0 {
        0
    } else {
        occurrences(reg.drop_last(), addr) + if reg.last().address == addr {
            1nat
        } else {
            0nat
        }
    }
}

/// A lookup finds nothing exactly when no entry has the address.
pub proof fn lemma_lookup_none(reg: Seq<EntryView>, addr: Seq<u8>)
    ensures
        lookup(reg, addr) is None <==> !is_registered(reg, addr),
    decreases reg.len(),
{
    if reg.len() > 0 {
        let init = reg.drop_last();
        lemma_lookup_none(init, addr);
        if is_registered(init, addr) {
            let i = choose|i: int| 0 <= i < init.len() && #[trigger] init[i].address == addr;
            assert(reg[i].address == addr);
        }
        if is_registered(reg, addr) && !is_registered(init, addr) {
            let i = choose|i: int| 0 <= i < reg.len() && #[trigger] reg[i].address == addr;
            if i < reg.len() - 1 {
                assert(init[i].address == addr);
            }
        }
    }
}

/// What a lookup finds is an entry of the registry with the address asked for,
/// and no earlier entry has that address.
pub proof fn lemma_lookup_found(reg: Seq<EntryView>, addr: Seq<u8>)
    requires
        lookup(reg, addr) is Some,
    ensures
        exists|i: int|
            0 <= i < reg.len() && reg[i] == lookup(reg, addr)->0 && reg[i].address == addr
                && forall|j: int| 0 <= j < i ==> #[trigger] reg[j].address != addr,
    decreases reg.len(),
{
    let init = reg.drop_last();
    if lookup(init, addr) is Some {
        lemma_lookup_found(init, addr);
        let i = choose|i: int|
            0 <= i < init.len() && init[i] == lookup(init, addr)->0 && init[i].address == addr
                && forall|j: int| 0 <= j < i ==> #[trigger] init[j].address != addr;
        assert forall|j: int| 0 <= j < i implies #[trigger] reg[j].address != addr by {
            assert(init[j] == reg[j]);
        }
    } else {
        lemma_lookup_none(init, addr);
        let i = reg.len() - 1;
        assert forall|j: int| 0 <= j < i implies #[trigger] reg[j].address != addr by {
            assert(init[j] == reg[j]);
        }
    }
}

/// A lookup that succeeds on a prefix gives the same answer on the whole.
pub proof fn lemma_lookup_prefix(reg: Seq<EntryView>, k: int, addr: Seq<u8>)
    requires
        0 <= k <= reg.len(),
        lookup(reg.take(k), addr) is Some,
    ensures
        lookup(reg, addr) == lookup(reg.take(k), addr),
    decreases reg.len(),
{
    if k < reg.len() {
        assert(reg.drop_last().take(k) =~= reg.take(k));
        lemma_lookup_prefix(reg.drop_last(), k, addr);
    } else {
        assert(reg.take(k) =~= reg);
    }
}

/// Looking up in a registry with one more entry at its end.
pub proof fn lemma_lookup_push(reg: Seq<EntryView>, e: EntryView, addr: Seq<u8>)
    ensures
        lookup(reg.push(e), addr) == match lookup(reg, addr) {
            Some(found) => Some(found),
            None => if e.address == addr {
                Some(e)
            } else {
                None
            },
        },
{
    assert(reg.push(e).drop_last() =~= reg);
}

/// Taking out an address, in a registry with one more entry at its end.
pub proof fn lemma_without_push(reg: Seq<EntryView>, e: EntryView, addr: Seq<u8>)
    ensures
        without(reg.push(e), addr) == if e.address == addr {
            without(reg, addr)
        } else {
            without(reg, addr).push(e)
        },
        occurrences(reg.push(e), addr) == occurrences(reg, addr) + if e.address == addr {
            1nat
        } else {
            0nat
        },
{
    assert(reg.push(e).drop_last() =~= reg);
}

/// No entry that is left after taking out an address has that address; every
/// entry left comes from the registry, and none with another address is lost.
pub proof fn lemma_without_contents(reg: Seq<EntryView>, addr: Seq<u8>)
    ensures
        forall|i: int|
            0 <= i < without(reg, addr).len() ==> #[trigger] without(reg, addr)[i].address != addr,
        !is_registered(without(reg, addr), addr),
        without(reg, addr).len() + occurrences(reg, addr) == reg.len(),
    decreases reg.len(),
{
    if reg.len() > 0 {
        let init = reg.drop_last();
        lemma_without_contents(init, addr);
        assert(reg =~= init.push(reg.last()));
        lemma_without_push(init, reg.last(), addr);
    }
}

/// Taking out an address that is not registered changes nothing.
pub proof fn lemma_without_absent(reg: Seq<EntryView>, addr: Seq<u8>)
    requires
        !is_registered(reg, addr),
    ensures
        without(reg, addr) == reg,
    decreases reg.len(),
{
    if reg.len() > 0 {
        let init = reg.drop_last();
        assert forall|i: int| 0 <= i < init.len() implies #[trigger] init[i].address != addr by {
            assert(reg[i] == init[i]);
        }
        lemma_without_absent(init, addr);
        assert(reg.last() == reg[reg.len() - 1]);
        assert(init.push(reg.last()) =~= reg);
    }
}

/// Taking out one address leaves every lookup of another address as it was.
pub proof fn lemma_without_lookup_other(reg: Seq<EntryView>, addr: Seq<u8>, other: Seq<u8>)
    requires
        addr != other,
    ensures
        lookup(without(reg, addr), other) == lookup(reg, other),
    decreases reg.len(),
{
    if reg.len() > 0 {
        let init = reg.drop_last();
        lemma_without_lookup_other(init, addr, other);
        if reg.last().address != addr {
            lemma_lookup_push(without(init, addr), reg.last(), other);
        }
    }
}

} // verus!
