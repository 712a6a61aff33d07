//! The registry state machine: the administrator, the registered contracts,
//! and the operations of the facade over them.

use vstd::prelude::*;

use crate::address::ContractAddress;
use crate::registry::{
    entries_view, lemma_lookup_prefix, lemma_lookup_push, lemma_without_push, lookup, without,
    ContractKind, EntryView, RegisteredContract,
};

verus! {

/// Why an operation of the facade was refused.
#[derive(Clone, Copy, Debug, PartialEq, Eq, Structural)]
pub enum FacadeError {
    /// `init` was called on a facade that already has an administrator.
    AlreadyInitialized,
    /// An administrator-only operation was called before `init`.
    NotInitialized,
}

impl FacadeError {
    /// The text with which a host aborts the call that was refused.
    pub fn message(&self) -> (res: &'static str)
        ensures
            res@ == match self {
                FacadeError::AlreadyInitialized => "Already initialized"@,
                FacadeError::NotInitialized => "Not initialized"@,
            },
    {
        match self {
            FacadeError::AlreadyInitialized => "Already initialized",
            FacadeError::NotInitialized => "Not initialized",
        }
    }
}

/// The mathematical value of a [`ViewFacade`]: its administrator, if one was
/// set, and the registered contracts in the order in which they were added.
pub struct FacadeView {
    pub admin: Option<Seq<u8>>,
    pub registry: Seq<EntryView>,
}

/// The state of a freshly deployed facade: no administrator, nothing
/// registered.
pub open spec fn empty_facade() -> FacadeView {
    FacadeView { admin: None, registry: Seq::empty() }
}

impl FacadeView {
    /// What `init` answers.
    pub open spec fn init_result(self) -> Result<(), FacadeError> {
        if self.admin is Some {
            Err(FacadeError::AlreadyInitialized)
        } else {
            Ok(())
        }
    }

    /// The state after `init` with the administrator `admin`.
    pub open spec fn after_init(self, admin: Seq<u8>) -> FacadeView {
        if self.admin is Some {
            self
        } else {
            FacadeView { admin: Some(admin), registry: self.registry }
        }
    }

    /// What an administrator-only operation answers: the administrator whose
    /// authorization the change needs, or why it is refused.
    pub open spec fn update_result(self) -> Result<Seq<u8>, FacadeError> {
        match self.admin {
            Some(admin) => Ok(admin),
            None => Err(FacadeError::NotInitialized),
        }
    }

    /// The state after `register` of the entry `entry`.
    pub open spec fn after_register(self, entry: EntryView) -> FacadeView {
        if self.admin is Some {
            FacadeView { admin: self.admin, registry: self.registry.push(entry) }
        } else {
            self
        }
    }

    /// The state after `deregister` of the address `addr`.
    pub open spec fn after_deregister(self, addr: Seq<u8>) -> FacadeView {
        if self.admin is Some {
            FacadeView { admin: self.admin, registry: without(self.registry, addr) }
        } else {
            self
        }
    }

    /// Nothing is registered unless an administrator has been set.
    pub open spec fn consistent(self) -> bool {
        self.registry.len() > 0 ==> self.admin is Some
    }
}

/// The view of an optional identity.
pub open spec fn address_option_view(a: Option<ContractAddress>) -> Option<Seq<u8>> {
    match a {
        Some(a) => Some(a@),
        None => None,
    }
}

/// The view of what an administrator-only operation returns.
pub open spec fn update_result_view(r: Result<ContractAddress, FacadeError>) -> Result<
    Seq<u8>,
    FacadeError,
> {
    match r {
        Ok(a) => Ok(a@),
        Err(e) => Err(e),
    }
}

/// The view of an optional entry.
pub open spec fn entry_option_view(e: Option<RegisteredContract>) -> Option<EntryView> {
    match e {
        Some(e) => Some(e@),
        None => None,
    }
}

/// The registry of known contracts and the administrator who keeps it.
pub struct ViewFacade {
    admin: Option<ContractAddress>,
    registry: Vec<RegisteredContract>,
}

impl View for ViewFacade {
    type V = FacadeView;

    closed spec fn view(&self) -> FacadeView {
        FacadeView { admin: address_option_view(self.admin), registry: entries_view(self.registry@) }
    }
}

impl ViewFacade {
    /// The registry holds no more entries than a host vector can count.
    #[verifier::type_invariant]
    spec fn fits(self) -> bool {
        self.registry@.len() <= u32::MAX
    }

    /// A facade with no administrator and nothing registered.
    pub fn new() -> (res: ViewFacade)
        ensures
            res@ == empty_facade(),
    {
        let res = ViewFacade { admin: None, registry: Vec::new() };
        assert(res@.registry =~= Seq::<EntryView>::empty());
        res
    }

    /// A facade with the administrator and registry read from storage, an
    /// absent registry being an empty one.
    pub fn from_parts(
        admin: Option<ContractAddress>,
        registry: Option<Vec<RegisteredContract>>,
    ) -> (res: ViewFacade)
        requires
            registry matches Some(r) ==> r@.len() <= u32::MAX,
        ensures
            res@.admin == address_option_view(admin),
            res@.registry == match registry {
                Some(r) => entries_view(r@),
                None => Seq::empty(),
            },
    {
        let registry = match registry {
            Some(r) => r,
            None => {
                let empty: Vec<RegisteredContract> = Vec::new();
                assert(entries_view(empty@) =~= Seq::<EntryView>::empty());
                empty
            },
        };
        ViewFacade { admin, registry }
    }

    /// The administrator and the registry, for storing.
    pub fn into_parts(self) -> (res: (Option<ContractAddress>, Vec<RegisteredContract>))
        ensures
            address_option_view(res.0) == self@.admin,
            entries_view(res.1@) == self@.registry,
            res.1@.len() <= u32::MAX,
    {
        proof {
            use_type_invariant(&self);
        }
        (self.admin, self.registry)
    }

    /// Sets the administrator who may register contracts; refused once one is
    /// set.
    pub fn init(&mut self, admin: ContractAddress) -> (res: Result<(), FacadeError>)
        ensures
            res == old(self)@.init_result(),
            final(self)@ == old(self)@.after_init(admin@),
    {
        proof {
            use_type_invariant(&*self);
        }
        if self.admin.is_some() {
            return Err(FacadeError::AlreadyInitialized);
        }
        self.admin = Some(admin);
        Ok(())
    }

    /// The administrator whose authorization a change needs, or
    /// `NotInitialized`.
    fn authorizer(&self) -> (res: Result<ContractAddress, FacadeError>)
        ensures
            update_result_view(res) == self@.update_result(),
    {
        match &self.admin {
            Some(admin) => Ok(admin.clone()),
            None => Err(FacadeError::NotInitialized),
        }
    }

    /// Adds a contract at the end of the registry. Administrator-only: on
    /// success it returns the administrator whose authorization the host must
    /// obtain before it keeps the new state.
    pub fn register(&mut self, address: ContractAddress, kind: ContractKind, version: u32) -> (res:
        Result<ContractAddress, FacadeError>)
        requires
            old(self)@.admin is None || old(self)@.registry.len() < u32::MAX,
        ensures
            update_result_view(res) == old(self)@.update_result(),
            final(self)@ == old(self)@.after_register(
                EntryView { address: address@, kind, version },
            ),
    {
        proof {
            use_type_invariant(&*self);
        }
        let admin = self.authorizer();
        if admin.is_err() {
            return admin;
        }
        let ghost before = self.registry@;
        let entry = RegisteredContract { address, kind, version };
        let mut registry: Vec<RegisteredContract> = Vec::new();
        std::mem::swap(&mut registry, &mut self.registry);
        registry.push(entry);
        self.registry = registry;
        proof {
            assert(entries_view(self.registry@) =~= entries_view(before).push(entry@));
        }
        admin
    }

    /// Takes every entry with the given address out of the registry, keeping
    /// the others in their order. Administrator-only: on success it returns
    /// the administrator whose authorization the host must obtain before it
    /// keeps the new state.
    pub fn deregister(&mut self, address: &ContractAddress) -> (res: Result<
        ContractAddress,
        FacadeError,
    >)
        ensures
            update_result_view(res) == old(self)@.update_result(),
            final(self)@ == old(self)@.after_deregister(address@),
    {
        proof {
            use_type_invariant(&*self);
        }
        let admin = self.authorizer();
        if admin.is_err() {
            return admin;
        }
        let updated = remove_address(&self.registry, address);
        self.registry = updated;
        admin
    }

    /// All registered contracts, in the order in which they were added.
    pub fn list_contracts(&self) -> (res: Vec<RegisteredContract>)
        ensures
            entries_view(res@) == self@.registry,
    {
        let n = self.registry.len();
        let mut res: Vec<RegisteredContract> = Vec::new();
        let mut i: usize = 0;
        while i < n
            invariant
                n == self.registry@.len(),
                0 <= i <= n,
                entries_view(res@) == entries_view(self.registry@).take(i as int),
            decreases n - i,
        {
            let ghost before = res@;
            res.push(self.registry[i].clone());
            proof {
                assert(entries_view(res@) =~= entries_view(before).push(self.registry@[i as int]@));
                assert(entries_view(self.registry@).take(i + 1) =~= entries_view(
                    self.registry@,
                ).take(i as int).push(self.registry@[i as int]@));
            }
            i = i + 1;
        }
        proof {
            assert(entries_view(self.registry@).take(n as int) =~= entries_view(self.registry@));
        }
        res
    }

    /// How many contracts are registered.
    pub fn contract_count(&self) -> (res: u32)
        ensures
            res == self@.registry.len(),
    {
        proof {
            use_type_invariant(&self);
        }
        self.registry.len() as u32
    }

    /// The first registered contract with the given address, if any.
    pub fn get_contract(&self, address: &ContractAddress) -> (res: Option<RegisteredContract>)
        ensures
            entry_option_view(res) == lookup(self@.registry, address@),
    {
        find_entry(&self.registry, address)
    }
}

/// The first entry of `registry` with the given address, if any.
fn find_entry(registry: &Vec<RegisteredContract>, address: &ContractAddress) -> (res: Option<
    RegisteredContract,
>)
    ensures
        entry_option_view(res) == lookup(entries_view(registry@), address@),
{
    let ghost reg = entries_view(registry@);
    let n = registry.len();
    let mut i: usize = 0;
    while i < n
        invariant
            n == registry@.len(),
            reg == entries_view(registry@),
            0 <= i <= n,
            lookup(reg.take(i as int), address@) is None,
        decreases n - i,
    {
        proof {
            assert(reg.take(i + 1) =~= reg.take(i as int).push(reg[i as int]));
            lemma_lookup_push(reg.take(i as int), reg[i as int], address@);
        }
        if registry[i].address.same_as(address) {
            let found = registry[i].clone();
            proof {
                lemma_lookup_prefix(reg, i + 1, address@);
            }
            return Some(found);
        }
        i = i + 1;
    }
    proof {
        assert(reg.take(n as int) =~= reg);
    }
    None
}

/// `registry` without the entries of the given address, the others kept in
/// their order.
fn remove_address(registry: &Vec<RegisteredContract>, address: &ContractAddress) -> (res: Vec<
    RegisteredContract,
>)
    ensures
        entries_view(res@) == without(entries_view(registry@), address@),
        res@.len() <= registry@.len(),
{
    let ghost reg = entries_view(registry@);
    let n = registry.len();
    let mut res: Vec<RegisteredContract> = Vec::new();
    let mut i: usize = 0;
    proof {
        assert(reg.take(0) =~= Seq::<EntryView>::empty());
        assert(entries_view(res@) =~= Seq::<EntryView>::empty());
    }
    while i < n
        invariant
            n == registry@.len(),
            reg == entries_view(registry@),
            0 <= i <= n,
            res@.len() <= i,
            entries_view(res@) == without(reg.take(i as int), address@),
        decreases n - i,
    {
        proof {
            assert(reg.take(i + 1) =~= reg.take(i as int).push(reg[i as int]));
            lemma_without_push(reg.take(i as int), reg[i as int], address@);
        }
        if !registry[i].address.same_as(address) {
            let ghost before = res@;
            res.push(registry[i].clone());
            proof {
                assert(entries_view(res@) =~= entries_view(before).push(reg[i as int]));
            }
        }
        i = i + 1;
    }
    proof {
        assert(reg.take(n as int) =~= reg);
    }
    res
}

} // verus!
