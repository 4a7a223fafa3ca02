//! The account registry: the registered secrets in the order in which they
//! were added, each with its label and its cached code, and the one selected
//! index.

use crate::engine::{derive_spec, hashable, try_derive};
use crate::text::{code_digits, code_text};
use crate::totp::{Totp, TotpView};
use vstd::arithmetic::div_mod::{
    lemma_mod_add_multiples_vanish, lemma_mod_self_0, lemma_small_mod,
};
use vstd::prelude::*;

verus! {

/// One registered secret.
#[derive(Debug)]
pub struct Account {
    /// The secret key, as raw bytes.
    pub secret: Vec<u8>,
    /// The name under which the account is shown.
    pub label: String,
    /// The code derived last, as text; `None` until the first derivation.
    pub cached_code: Option<String>,
}

/// What an account holds, as mathematical values.
#[verifier::ext_equal]
pub struct AccountView {
    pub secret: Seq<u8>,
    pub label: Seq<char>,
    pub cached_code: Option<Seq<char>>,
}

impl View for Account {
    type V = AccountView;

    open spec fn view(&self) -> AccountView {
        AccountView {
            secret: self.secret@,
            label: self.label@,
            cached_code: match self.cached_code {
                Some(text) => Some(text@),
                None => None,
            },
        }
    }
}

/// The line of the code list that an account gives: its code, or an empty
/// text while it has none, beside its label.
pub open spec fn entry_of(account: AccountView) -> TotpView {
    TotpView {
        key: match account.cached_code {
            Some(text) => text,
            None => Seq::empty(),
        },
        address: account.label,
    }
}

impl Account {
    /// The line of the code list for this account.
    pub fn entry(&self) -> (entry: Totp)
        ensures
            entry@ == entry_of(self@),
    {
        let key = match &self.cached_code {
            Some(text) => text.clone(),
            None => String::new(),
        };
        Totp { key, address: self.label.clone() }
    }
}

/// Why a registry operation changed nothing.
#[derive(Debug, Clone, Copy, PartialEq, Eq, Structural)]
pub enum RegistryError {
    /// `add` was given a secret of no bytes.
    EmptySecretRejected,
    /// The index names no account.
    IndexOutOfRange,
}

/// The account after a derivation at `now`: its code is the text of the code
/// of its secret. An account whose secret the hash does not take keeps the
/// code it had.
pub open spec fn refreshed(account: AccountView, now: u64) -> AccountView {
    if hashable(account.secret) {
        AccountView {
            secret: account.secret,
            label: account.label,
            cached_code: Some(code_digits(derive_spec(account.secret, now))),
        }
    } else {
        account
    }
}

/// What a registry holds, as mathematical values.
#[verifier::ext_equal]
pub struct RegistryView {
    /// The accounts, oldest first.
    pub accounts: Seq<AccountView>,
    /// The selected index; `None` exactly when there is no account.
    pub selected: Option<int>,
}

impl RegistryView {
    /// The selected index names an account whenever there is one, and is
    /// absent when there is none; no account has an empty secret.
    pub open spec fn valid(self) -> bool {
        &&& self.accounts.len() == 0 <==> self.selected is None
        &&& self.selected matches Some(i) ==> 0 <= i < self.accounts.len()
        &&& forall|i: int|
            0 <= i < self.accounts.len() ==> (#[trigger] self.accounts[i]).secret.len() > 0
    }

    /// The registry without accounts.
    pub open spec fn empty() -> RegistryView {
        RegistryView { accounts: Seq::empty(), selected: None }
    }

    /// The registry after `add`: unchanged for an empty secret, otherwise one
    /// account longer; the first account becomes the selected one.
    pub open spec fn add(self, secret: Seq<u8>, label: Seq<char>) -> RegistryView {
        if secret.len() == 0 {
            self
        } else {
            RegistryView {
                accounts: self.accounts.push(AccountView { secret, label, cached_code: None }),
                selected: if self.selected is None {
                    Some(0)
                } else {
                    self.selected
                },
            }
        }
    }

    /// The selected index clamped into a registry of `len` accounts.
    pub open spec fn clamp(selected: Option<int>, len: int) -> Option<int> {
        if len <= 0 {
            None
        } else {
            match selected {
                Some(i) => Some(
                    if i > len - 1 {
                        len - 1
                    } else if i < 0 {
                        0
                    } else {
                        i
                    },
                ),
                None => Some(0),
            }
        }
    }

    /// The registry after `remove`: unchanged for an index out of range,
    /// otherwise without that account and with the selected index clamped.
    pub open spec fn remove(self, index: int) -> RegistryView {
        if 0 <= index < self.accounts.len() {
            RegistryView {
                accounts: self.accounts.remove(index),
                selected: Self::clamp(self.selected, self.accounts.len() - 1),
            }
        } else {
            self
        }
    }

    /// The registry after `select`: unchanged for an index out of range.
    pub open spec fn select(self, index: int) -> RegistryView {
        if 0 <= index < self.accounts.len() {
            RegistryView { accounts: self.accounts, selected: Some(index) }
        } else {
            self
        }
    }

    /// The registry after `select_next`: the selection moves one account on
    /// and wraps from the last to the first.
    pub open spec fn select_next(self) -> RegistryView {
        match self.selected {
            Some(i) if self.accounts.len() > 0 => RegistryView {
                accounts: self.accounts,
                selected: Some(
                    if i + 1 < self.accounts.len() {
                        i + 1
                    } else {
                        0
                    },
                ),
            },
            _ => self,
        }
    }

    /// The registry after `select_prev`: the selection moves one account back
    /// and wraps from the first to the last.
    pub open spec fn select_prev(self) -> RegistryView {
        match self.selected {
            Some(i) if self.accounts.len() > 0 => RegistryView {
                accounts: self.accounts,
                selected: Some(
                    if i > 0 {
                        i - 1
                    } else {
                        self.accounts.len() - 1
                    },
                ),
            },
            _ => self,
        }
    }

    /// The registry after a full pass at `now`: every account refreshed.
    pub open spec fn recompute_all(self, now: u64) -> RegistryView {
        RegistryView {
            accounts: Seq::new(self.accounts.len(), |i: int| refreshed(self.accounts[i], now)),
            selected: self.selected,
        }
    }

    /// The registry after the accounts without a code were refreshed at `now`.
    pub open spec fn fill_missing(self, now: u64) -> RegistryView {
        RegistryView {
            accounts: Seq::new(
                self.accounts.len(),
                |i: int|
                    if self.accounts[i].cached_code is None {
                        refreshed(self.accounts[i], now)
                    } else {
                        self.accounts[i]
                    },
            ),
            selected: self.selected,
        }
    }
}

/// One operation on a registry.
pub enum Operation {
    Add { secret: Seq<u8>, label: Seq<char> },
    Remove { index: int },
    Select { index: int },
    SelectNext,
    SelectPrev,
    RecomputeAll { now: u64 },
    FillMissing { now: u64 },
}

/// The registry after one operation.
pub open spec fn apply(registry: RegistryView, operation: Operation) -> RegistryView {
    match operation {
        Operation::Add { secret, label } => registry.add(secret, label),
        Operation::Remove { index } => registry.remove(index),
        Operation::Select { index } => registry.select(index),
        Operation::SelectNext => registry.select_next(),
        Operation::SelectPrev => registry.select_prev(),
        Operation::RecomputeAll { now } => registry.recompute_all(now),
        Operation::FillMissing { now } => registry.fill_missing(now),
    }
}

/// The registry after the operations of `operations`, first to last.
pub open spec fn apply_all(registry: RegistryView, operations: Seq<Operation>) -> RegistryView
    decreases operations.len(),
{
    if operations.len() == 0 {
        registry
    } else {
        apply(apply_all(registry, operations.drop_last()), operations.last())
    }
}

/// No operation makes a valid registry invalid.
pub proof fn operation_keeps_valid(registry: RegistryView, operation: Operation)
    requires
        registry.valid(),
    ensures
        apply(registry, operation).valid(),
{
}

/// Whatever is done to a registry that began empty, its selected index names
/// an account whenever it holds one, and is absent when it holds none.
pub proof fn selection_always_valid(operations: Seq<Operation>)
    ensures
        apply_all(RegistryView::empty(), operations).valid(),
    decreases operations.len(),
{
    if operations.len() > 0 {
        selection_always_valid(operations.drop_last());
        operation_keeps_valid(
            apply_all(RegistryView::empty(), operations.drop_last()),
            operations.last(),
        );
    }
}

/// Selecting and deriving codes change no secret and no label, and neither
/// add nor drop an account.
pub proof fn only_codes_change(registry: RegistryView, operation: Operation)
    requires
        !(operation is Add),
        !(operation is Remove),
    ensures
        apply(registry, operation).accounts.len() == registry.accounts.len(),
        forall|i: int|
            0 <= i < registry.accounts.len() ==> {
                &&& (#[trigger] apply(registry, operation).accounts[i]).secret
                    == registry.accounts[i].secret
                &&& apply(registry, operation).accounts[i].label == registry.accounts[i].label
            },
{
}

/// Moving the selection on goes round in a circle: from index `i` of `n`
/// accounts to `(i + 1) % n`, and back from there to `i`.
pub proof fn selection_goes_round(registry: RegistryView)
    requires
        registry.valid(),
        registry.selected is Some,
    ensures
        registry.select_next().selected == Some(
            (registry.selected.unwrap() + 1) % (registry.accounts.len() as int),
        ),
        registry.select_prev().selected == Some(
            (registry.selected.unwrap() + registry.accounts.len() - 1) % (
            registry.accounts.len() as int),
        ),
        registry.select_next().select_prev() == registry,
        registry.select_prev().select_next() == registry,
{
    let i = registry.selected.unwrap();
    let n = registry.accounts.len() as int;
    if i + 1 < n {
        lemma_small_mod((i + 1) as nat, n as nat);
    } else {
        lemma_mod_self_0(n);
    }
    if i > 0 {
        lemma_mod_add_multiples_vanish(i - 1, n);
        lemma_small_mod((i - 1) as nat, n as nat);
    } else {
        lemma_small_mod((n - 1) as nat, n as nat);
    }
}

/// The registered accounts, oldest first, and the selected index.
#[derive(Debug)]
pub struct Registry {
    accounts: Vec<Account>,
    /// The selected index; zero while there is no account.
    cursor: usize,
}

impl View for Registry {
    type V = RegistryView;

    closed spec fn view(&self) -> RegistryView {
        RegistryView {
            accounts: Seq::new(self.accounts@.len(), |i: int| self.accounts@[i]@),
            selected: if self.accounts@.len() == 0 {
                None
            } else {
                Some(self.cursor as int)
            },
        }
    }
}

impl Registry {
    #[verifier::type_invariant]
    spec fn inv(self) -> bool {
        &&& self.cursor < self.accounts@.len() || self.cursor == 0
        &&& forall|i: int|
            0 <= i < self.accounts@.len() ==> (#[trigger] self.accounts@[i]).secret@.len() > 0
    }

    /// A registry without accounts.
    pub fn new() -> (registry: Registry)
        ensures
            registry@ == RegistryView::empty(),
            registry@.valid(),
    {
        let registry = Registry { accounts: Vec::new(), cursor: 0 };
        assert(registry@ =~= RegistryView::empty());
        registry
    }

    /// The number of accounts.
    pub fn len(&self) -> (len: usize)
        ensures
            len == self@.accounts.len(),
            self@.valid(),
    {
        proof {
            use_type_invariant(self);
        }
        self.accounts.len()
    }

    /// Whether there is no account.
    pub fn is_empty(&self) -> (empty: bool)
        ensures
            empty <==> self@.accounts.len() == 0,
    {
        self.accounts.len() == 0
    }

    /// The selected index, absent exactly when there is no account.
    pub fn selected(&self) -> (selected: Option<usize>)
        ensures
            self@.valid(),
            selected is None <==> self@.selected is None,
            selected matches Some(i) ==> self@.selected == Some(i as int),
    {
        proof {
            use_type_invariant(self);
        }
        if self.accounts.len() == 0 {
            None
        } else {
            Some(self.cursor)
        }
    }

    /// Registers a secret under a label. An empty secret is rejected and
    /// changes nothing; otherwise the account is appended without a code, and
    /// its index is returned. The first account becomes the selected one.
    pub fn add(&mut self, secret: Vec<u8>, label: String) -> (result: Result<usize, RegistryError>)
        ensures
            final(self)@ == old(self)@.add(secret@, label@),
            final(self)@.valid(),
            secret@.len() == 0 ==> result == Err::<usize, RegistryError>(
                RegistryError::EmptySecretRejected,
            ),
            secret@.len() > 0 ==> result == Ok::<usize, RegistryError>(
                old(self)@.accounts.len() as usize,
            ),
    {
        proof {
            use_type_invariant(&*self);
        }
        if secret.len() == 0 {
            return Err(RegistryError::EmptySecretRejected);
        }
        let cursor = self.cursor;
        let mut accounts = self.take_accounts();
        let index = accounts.len();
        accounts.push(Account { secret, label, cached_code: None });
        *self = Registry { accounts, cursor };
        assert(self@ =~= old(self)@.add(secret@, label@));
        Ok(index)
    }

    /// Deletes the account at `index` and clamps the selected index into what
    /// is left. An index out of range changes nothing.
    pub fn remove(&mut self, index: usize) -> (result: Result<Account, RegistryError>)
        ensures
            final(self)@ == old(self)@.remove(index as int),
            final(self)@.valid(),
            index < old(self)@.accounts.len() ==> result is Ok && result->Ok_0@ == old(
                self,
            )@.accounts[index as int],
            index >= old(self)@.accounts.len() ==> result == Err::<Account, RegistryError>(
                RegistryError::IndexOutOfRange,
            ),
    {
        proof {
            use_type_invariant(&*self);
        }
        if index >= self.accounts.len() {
            return Err(RegistryError::IndexOutOfRange);
        }
        let cursor = self.cursor;
        let mut accounts = self.take_accounts();
        let removed = accounts.remove(index);
        let left = accounts.len();
        let clamped = if left == 0 {
            0
        } else if cursor > left - 1 {
            left - 1
        } else {
            cursor
        };
        *self = Registry { accounts, cursor: clamped };
        assert(self@ =~= old(self)@.remove(index as int));
        Ok(removed)
    }

    /// Deletes the selected account, if there is one.
    pub fn remove_selected(&mut self) -> (result: Result<Account, RegistryError>)
        ensures
            final(self)@.valid(),
            old(self)@.selected matches Some(i) ==> final(self)@ == old(self)@.remove(i)
                && result is Ok && result->Ok_0@ == old(self)@.accounts[i],
            old(self)@.selected is None ==> final(self)@ == old(self)@ && result == Err::<
                Account,
                RegistryError,
            >(RegistryError::IndexOutOfRange),
    {
        match self.selected() {
            Some(index) => self.remove(index),
            None => Err(RegistryError::IndexOutOfRange),
        }
    }

    /// Selects the account at `index`. An index out of range changes nothing.
    pub fn select(&mut self, index: usize) -> (result: Result<(), RegistryError>)
        ensures
            final(self)@ == old(self)@.select(index as int),
            final(self)@.valid(),
            index < old(self)@.accounts.len() ==> result == Ok::<(), RegistryError>(()),
            index >= old(self)@.accounts.len() ==> result == Err::<(), RegistryError>(
                RegistryError::IndexOutOfRange,
            ),
    {
        proof {
            use_type_invariant(&*self);
        }
        if index >= self.accounts.len() {
            return Err(RegistryError::IndexOutOfRange);
        }
        self.cursor = index;
        assert(self@ =~= old(self)@.select(index as int));
        Ok(())
    }

    /// Moves the selection to the next account, from the last to the first.
    /// Changes nothing while there is no account.
    pub fn select_next(&mut self)
        ensures
            final(self)@ == old(self)@.select_next(),
            final(self)@.valid(),
    {
        proof {
            use_type_invariant(&*self);
        }
        let len = self.accounts.len();
        if len > 0 {
            let next = if self.cursor >= len - 1 {
                0
            } else {
                self.cursor + 1
            };
            self.cursor = next;
        }
        assert(self@ =~= old(self)@.select_next());
    }

    /// Moves the selection to the account before, from the first to the last.
    /// Changes nothing while there is no account.
    pub fn select_prev(&mut self)
        ensures
            final(self)@ == old(self)@.select_prev(),
            final(self)@.valid(),
    {
        proof {
            use_type_invariant(&*self);
        }
        let len = self.accounts.len();
        if len > 0 {
            let prev = if self.cursor > 0 {
                self.cursor - 1
            } else {
                len - 1
            };
            self.cursor = prev;
        }
        assert(self@ =~= old(self)@.select_prev());
    }

    /// The account at `index`, if there is one.
    pub fn get(&self, index: usize) -> (account: Option<&Account>)
        ensures
            index < self@.accounts.len() ==> account is Some && account->Some_0@
                == self@.accounts[index as int],
            index >= self@.accounts.len() ==> account is None,
    {
        if index < self.accounts.len() {
            Some(&self.accounts[index])
        } else {
            None
        }
    }

    /// The selected account, if there is one.
    pub fn get_selected(&self) -> (account: Option<&Account>)
        ensures
            self@.valid(),
            self@.selected matches Some(i) ==> account is Some && account->Some_0@
                == self@.accounts[i],
            self@.selected is None ==> account is None,
    {
        match self.selected() {
            Some(index) => self.get(index),
            None => None,
        }
    }

    /// The lines of the code list, one for each account, oldest first.
    pub fn entries(&self) -> (entries: Vec<Totp>)
        ensures
            entries@.len() == self@.accounts.len(),
            forall|i: int|
                0 <= i < entries@.len() ==> (#[trigger] entries@[i])@ == entry_of(
                    self@.accounts[i],
                ),
    {
        let mut entries: Vec<Totp> = Vec::new();
        let len = self.accounts.len();
        let mut i: usize = 0;
        while i < len
            invariant
                i <= len,
                len == self.accounts@.len(),
                entries@.len() == i,
                forall|j: int|
                    0 <= j < i ==> (#[trigger] entries@[j])@ == entry_of(self.accounts@[j]@),
            decreases len - i,
        {
            entries.push(self.accounts[i].entry());
            i += 1;
        }
        entries
    }

    /// The line of the selected account, or the blank entry while there is
    /// no account.
    pub fn selected_entry(&self) -> (entry: Totp)
        ensures
            self@.valid(),
            self@.selected matches Some(i) ==> entry@ == entry_of(self@.accounts[i]),
            self@.selected is None ==> entry@ == Totp::blank(),
    {
        match self.get_selected() {
            Some(account) => account.entry(),
            None => Totp::new(),
        }
    }

    /// Derives the code of every account anew at `now`. An account whose
    /// secret the hash does not take keeps the code it had.
    pub fn recompute_all(&mut self, now: u64)
        ensures
            final(self)@ == old(self)@.recompute_all(now),
            final(self)@.valid(),
    {
        self.refresh(now, true);
    }

    /// Derives at `now` the code of every account that has none yet.
    pub fn fill_missing(&mut self, now: u64)
        ensures
            final(self)@ == old(self)@.fill_missing(now),
            final(self)@.valid(),
    {
        self.refresh(now, false);
    }

    /// One pass over the accounts: with `all` every account is refreshed,
    /// without it those that have no code.
    fn refresh(&mut self, now: u64, all: bool)
        ensures
            all ==> final(self)@ == old(self)@.recompute_all(now),
            !all ==> final(self)@ == old(self)@.fill_missing(now),
            final(self)@.valid(),
    {
        proof {
            use_type_invariant(&*self);
        }
        let cursor = self.cursor;
        let mut accounts = self.take_accounts();
        let ghost before = accounts@;
        let len = accounts.len();
        let mut i: usize = 0;
        while i < len
            invariant
                i <= len,
                accounts@.len() == len,
                before.len() == len,
                forall|j: int|
                    0 <= j < len ==> (#[trigger] accounts@[j]).secret@ == before[j].secret@,
                forall|j: int|
                    0 <= j < i ==> (#[trigger] accounts@[j])@ == if all
                        || before[j].cached_code is None {
                        refreshed(before[j]@, now)
                    } else {
                        before[j]@
                    },
                forall|j: int| i <= j < len ==> (#[trigger] accounts@[j])@ == before[j]@,
            decreases len - i,
        {
            if all || accounts[i].cached_code.is_none() {
                match try_derive(accounts[i].secret.as_slice(), now) {
                    Some(code) => {
                        accounts[i].cached_code = Some(code_text(code));
                    },
                    None => {},
                }
            }
            i += 1;
        }
        *self = Registry { accounts, cursor };
        assert(all ==> self@ =~= old(self)@.recompute_all(now));
        assert(!all ==> self@ =~= old(self)@.fill_missing(now));
    }

    /// Moves the accounts out and leaves the registry empty.
    fn take_accounts(&mut self) -> (accounts: Vec<Account>)
        ensures
            accounts == old(self).accounts,
            final(self).accounts@.len() == 0,
            final(self).cursor == 0,
    {
        proof {
            use_type_invariant(&*self);
        }
        self.cursor = 0;
        let mut accounts: Vec<Account> = Vec::new();
        std::mem::swap(&mut self.accounts, &mut accounts);
        accounts
    }
}

} // verus!
