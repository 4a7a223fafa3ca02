//! One line of the code list: a code as text beside the label it belongs to.

use crate::engine::{derive_spec, hashable};
use crate::text::{code_digits, code_text};
use vstd::prelude::*;
use vstd::utf8::encode_utf8;

verus! {

/// A code as text and the label of its account.
#[derive(Clone, Debug)]
pub struct Totp {
    /// The code, six digits; empty while none has been derived.
    pub key: String,
    /// The label of the account.
    pub address: String,
}

/// What an entry holds, as mathematical values.
#[verifier::ext_equal]
pub struct TotpView {
    pub key: Seq<char>,
    pub address: Seq<char>,
}

impl View for Totp {
    type V = TotpView;

    open spec fn view(&self) -> TotpView {
        TotpView { key: self.key@, address: self.address@ }
    }
}

impl PartialEq for Totp {
    /// Two entries are equal where their codes are, whatever their labels.
    fn eq(&self, other: &Self) -> (equal: bool) {
        self.key == other.key
    }
}

impl vstd::std_specs::cmp::PartialEqSpecImpl for Totp {
    open spec fn obeys_eq_spec() -> bool {
        true
    }

    open spec fn eq_spec(&self, other: &Self) -> bool {
        self.key@ == other.key@
    }
}

impl Totp {
    /// The entry that stands for no account: both texts are empty.
    pub open spec fn blank() -> TotpView {
        TotpView { key: Seq::empty(), address: Seq::empty() }
    }

    /// An entry with an empty code and an empty label.
    pub fn new() -> (entry: Totp)
        ensures
            entry@ == Totp::blank(),
    {
        Totp { key: String::new(), address: String::new() }
    }
}

/// Derives the code of the secret `key` at `unix_time_seconds` and puts its
/// text beside the label `account`. The bytes of the secret are those of its
/// UTF-8 text.
pub fn code_constructor(key: String, account: String, unix_time_seconds: u64) -> (entry: Totp)
    requires
        hashable(encode_utf8(key@)),
    ensures
        entry.key@ == code_digits(derive_spec(encode_utf8(key@), unix_time_seconds)),
        entry.address@ == account@,
{
    let code = crate::engine::derive(key.as_str().as_bytes(), unix_time_seconds);
    Totp { key: code_text(code), address: account }
}

} // verus!
