//! Properties of the facade that span several operations, stated over the
//! step functions that the operations' contracts use.

use vstd::prelude::*;

use crate::facade::{empty_facade, FacadeError, FacadeView, ViewFacade};
use crate::registry::{
    entries_view, is_registered, lemma_lookup_found, lemma_lookup_none, lemma_lookup_push, lemma_without_absent,
    lemma_without_contents, lemma_without_lookup_other, lemma_without_push, lookup, occurrences,
    without, EntryView, RegisteredContract,
};

verus! {

/// A facade never holds a registered contract without an administrator: the
/// fresh facade satisfies this, and every operation keeps it.
pub proof fn law_registry_needs_admin(s: FacadeView, admin: Seq<u8>, entry: EntryView, addr: Seq<u8>)
    requires
        s.consistent(),
    ensures
        empty_facade().consistent(),
        s.after_init(admin).consistent(),
        s.after_register(entry).consistent(),
        s.after_deregister(addr).consistent(),
{
    lemma_without_contents(s.registry, addr);
}

/// A facade is initialized at most once: after a successful `init`, a second
/// `init` is refused with `AlreadyInitialized` and changes nothing, and the
/// administrator is the one given to the first call.
pub proof fn law_init_only_once(s: FacadeView, first: Seq<u8>, second: Seq<u8>)
    requires
        s.init_result() is Ok,
    ensures
        s.after_init(first).admin == Some(first),
        s.after_init(first).registry == s.registry,
        s.after_init(first).init_result() == Err::<(), FacadeError>(FacadeError::AlreadyInitialized),
        s.after_init(first).after_init(second) == s.after_init(first),
{
}

/// Once set, the administrator never changes: no operation replaces it.
pub proof fn law_admin_is_fixed(s: FacadeView, admin: Seq<u8>, entry: EntryView, addr: Seq<u8>)
    requires
        s.admin is Some,
    ensures
        s.after_init(admin).admin == s.admin,
        s.after_register(entry).admin == s.admin,
        s.after_deregister(addr).admin == s.admin,
        s.update_result() == Ok::<Seq<u8>, FacadeError>(s.admin->0),
{
}

/// A refused call leaves the facade as it was: `init` on an initialized
/// facade, and `register` or `deregister` before `init`.
pub proof fn law_refusals_change_nothing(
    s: FacadeView,
    admin: Seq<u8>,
    entry: EntryView,
    addr: Seq<u8>,
)
    ensures
        s.init_result() is Err ==> s.after_init(admin) == s,
        s.update_result() is Err ==> s.after_register(entry) == s && s.after_deregister(addr) == s,
        s.update_result() is Err <==> s.update_result() == Err::<Seq<u8>, FacadeError>(
            FacadeError::NotInitialized,
        ),
{
}

/// After `register`, looking up the new address finds the new entry unless
/// the address was already registered, in which case the earlier entry is
/// still the one found; lookups of other addresses are unchanged, and the
/// count grows by one.
pub proof fn law_lookup_after_register(s: FacadeView, entry: EntryView, other: Seq<u8>)
    requires
        s.update_result() is Ok,
    ensures
        !is_registered(s.registry, entry.address) ==> lookup(
            s.after_register(entry).registry,
            entry.address,
        ) == Some(entry),
        is_registered(s.registry, entry.address) ==> lookup(
            s.after_register(entry).registry,
            entry.address,
        ) == lookup(s.registry, entry.address),
        other != entry.address ==> lookup(s.after_register(entry).registry, other) == lookup(
            s.registry,
            other,
        ),
        s.after_register(entry).registry.len() == s.registry.len() + 1,
        s.after_register(entry).registry.last() == entry,
{
    lemma_lookup_none(s.registry, entry.address);
    lemma_lookup_push(s.registry, entry, entry.address);
    lemma_lookup_push(s.registry, entry, other);
}

/// After `deregister` of an address, looking it up finds nothing, lookups of
/// other addresses are unchanged, and the count drops by the number of
/// entries that had the address.
pub proof fn law_lookup_after_deregister(s: FacadeView, addr: Seq<u8>, other: Seq<u8>)
    requires
        s.update_result() is Ok,
    ensures
        lookup(s.after_deregister(addr).registry, addr) is None,
        !is_registered(s.after_deregister(addr).registry, addr),
        other != addr ==> lookup(s.after_deregister(addr).registry, other) == lookup(
            s.registry,
            other,
        ),
        s.after_deregister(addr).registry.len() + occurrences(s.registry, addr)
            == s.registry.len(),
{
    lemma_without_contents(s.registry, addr);
    lemma_lookup_none(without(s.registry, addr), addr);
    if other != addr {
        lemma_without_lookup_other(s.registry, addr, other);
    }
}

/// `deregister` undoes a `register` of an address that was not registered.
pub proof fn law_deregister_undoes_register(s: FacadeView, entry: EntryView)
    requires
        s.update_result() is Ok,
        !is_registered(s.registry, entry.address),
    ensures
        s.after_register(entry).after_deregister(entry.address) == s,
{
    lemma_without_push(s.registry, entry, entry.address);
    lemma_without_absent(s.registry, entry.address);
}

/// `deregister` of an address that is not registered changes nothing, and a
/// second `deregister` of the same address changes nothing either.
pub proof fn law_deregister_idempotent(s: FacadeView, addr: Seq<u8>)
    ensures
        !is_registered(s.registry, addr) ==> s.after_deregister(addr) == s,
        s.after_deregister(addr).after_deregister(addr) == s.after_deregister(addr),
{
    if !is_registered(s.registry, addr) {
        lemma_without_absent(s.registry, addr);
    }
    lemma_without_contents(s.registry, addr);
    lemma_without_absent(without(s.registry, addr), addr);
}

/// `deregister` keeps the remaining entries in the order in which they were
/// registered: it is the registry filtered by the address.
pub proof fn law_deregister_keeps_order(reg: Seq<EntryView>, addr: Seq<u8>)
    ensures
        without(reg, addr) == reg.filter(|e: EntryView| e.address != addr),
    decreases reg.len(),
{
    reveal(Seq::filter);
    if reg.len() > 0 {
        law_deregister_keeps_order(reg.drop_last(), addr);
    }
}

/// `register` only appends: on an initialized facade the registry afterwards
/// is the old registry, every old entry unchanged in its place, with the new
/// entry added at the end, whether or not its address was registered before.
pub proof fn law_register_appends(s: FacadeView, entry: EntryView)
    requires
        s.admin is Some,
    ensures
        s.after_register(entry).registry == s.registry.push(entry),
        s.after_register(entry).registry.len() == s.registry.len() + 1,
        forall|i: int|
            0 <= i < s.registry.len() ==> #[trigger] s.after_register(entry).registry[i]
                == s.registry[i],
        s.after_register(entry).registry[s.registry.len() as int] == entry,
        s.after_register(entry).admin == s.admin,
{
}

/// `deregister` on an initialized facade leaves exactly the entries whose
/// address differs from the one given, in the order they had before.
pub proof fn law_deregister_filters_in_order(s: FacadeView, addr: Seq<u8>)
    requires
        s.admin is Some,
    ensures
        s.after_deregister(addr).registry == s.registry.filter(|e: EntryView| e.address != addr),
        s.after_deregister(addr).admin == s.admin,
{
    law_deregister_keeps_order(s.registry, addr);
}

/// A lookup finds nothing exactly when no listed entry has the address;
/// otherwise it finds the first listed entry with that address.
pub proof fn law_lookup_finds_first_listed(reg: Seq<EntryView>, addr: Seq<u8>)
    ensures
        lookup(reg, addr) is None <==> !is_registered(reg, addr),
        lookup(reg, addr) is Some ==> exists|i: int|
            0 <= i < reg.len() && reg[i] == lookup(reg, addr)->0 && reg[i].address == addr
                && forall|j: int| 0 <= j < i ==> #[trigger] reg[j].address != addr,
{
    lemma_lookup_none(reg, addr);
    if lookup(reg, addr) is Some {
        lemma_lookup_found(reg, addr);
    }
}

/// The count of registered contracts is the length of their list.
pub proof fn law_count_is_list_length(f: ViewFacade, listed: Vec<RegisteredContract>, count: u32)
    requires
        entries_view(listed@) == f@.registry,
        count == f@.registry.len(),
    ensures
        listed@.len() == count,
{
    assert(entries_view(listed@).len() == listed@.len());
}

} // verus!
