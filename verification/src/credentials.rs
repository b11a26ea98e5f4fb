//! Secrets that a session keeps while a vault is open.

use vstd::prelude::*;
use zeroize::Zeroize;
use crate::dto::KeyfileRef;

verus! {

/// Calls `zeroize::Zeroize::zeroize` on a string: its memory is overwritten and it is
/// empty afterwards. That the memory is overwritten is not part of the contract, which
/// speaks of the string's contents only.
#[verifier::external_body]
fn zeroize_string(secret: &mut String)
    ensures
        final(secret)@ == Seq::<char>::empty(),
    opens_invariants none
    no_unwind
{
    secret.zeroize();
}

/// Calls `zeroize::Zeroize::zeroize` on a vector of bytes: its memory is overwritten and
/// it is empty afterwards. That the memory is overwritten is not part of the contract,
/// which speaks of the vector's contents only.
#[verifier::external_body]
fn zeroize_bytes(secret: &mut Vec<u8>)
    ensures
        final(secret)@ == Seq::<u8>::empty(),
    opens_invariants none
    no_unwind
{
    secret.zeroize();
}

/// A master password. It is wiped when it is dropped.
pub struct MasterPassword {
    value: String,
}

impl View for MasterPassword {
    type V = Seq<char>;

    closed spec fn view(&self) -> Seq<char> {
        self.value@
    }
}

impl MasterPassword {
    pub fn new(value: String) -> (password: MasterPassword)
        ensures
            password@ == value@,
    {
        MasterPassword { value }
    }

    /// The password in the clear, for the one who opens the vault.
    pub fn expose(&self) -> (text: &str)
        ensures
            text@ == self@,
    {
        self.value.as_str()
    }

    /// Wipes the password.
    pub fn zeroize(&mut self)
        ensures
            final(self)@ == Seq::<char>::empty(),
        opens_invariants none
        no_unwind
    {
        zeroize_string(&mut self.value);
    }
}

impl Drop for MasterPassword {
    fn drop(&mut self)
        ensures
            final(self)@ == Seq::<char>::empty(),
        opens_invariants none
        no_unwind
    {
        self.zeroize();
    }
}

/// A second factor beside the master password. It is wiped when it is dropped.
pub struct Keyfile {
    source: KeyfileRef,
}

/// A keyfile as the contracts speak of it.
pub enum KeyfileModel {
    Path(Seq<char>),
    Bytes(Seq<u8>),
}

/// What a frontend's reference to a keyfile says.
pub open spec fn keyfile_ref_view(source: KeyfileRef) -> KeyfileModel {
    match source {
        KeyfileRef::Path(path) => KeyfileModel::Path(path@),
        KeyfileRef::Bytes(bytes) => KeyfileModel::Bytes(bytes@),
    }
}

impl View for Keyfile {
    type V = KeyfileModel;

    closed spec fn view(&self) -> KeyfileModel {
        keyfile_ref_view(self.source)
    }
}

impl Keyfile {
    pub fn new(source: KeyfileRef) -> (keyfile: Keyfile)
        ensures
            keyfile@ == keyfile_ref_view(source),
            source matches KeyfileRef::Path(path) ==> keyfile@ == KeyfileModel::Path(path@),
            source matches KeyfileRef::Bytes(bytes) ==> keyfile@ == KeyfileModel::Bytes(bytes@),
    {
        Keyfile { source }
    }

    /// Where the keyfile is, or what it holds, for the one who opens the vault.
    pub fn expose(&self) -> (source: &KeyfileRef)
        ensures
            keyfile_ref_view(*source) == self@,
            self@ matches KeyfileModel::Path(text) ==> (*source matches KeyfileRef::Path(path)
                && path@ == text),
            self@ matches KeyfileModel::Bytes(held) ==> (*source matches KeyfileRef::Bytes(bytes)
                && bytes@ == held),
    {
        &self.source
    }

    /// Wipes the keyfile's path or bytes.
    pub fn zeroize(&mut self)
        ensures
            match old(self)@ {
                KeyfileModel::Path(_) => final(self)@ == KeyfileModel::Path(Seq::<char>::empty()),
                KeyfileModel::Bytes(_) => final(self)@ == KeyfileModel::Bytes(Seq::<u8>::empty()),
            },
        opens_invariants none
        no_unwind
    {
        match &mut self.source {
            KeyfileRef::Path(path) => zeroize_string(path),
            KeyfileRef::Bytes(bytes) => zeroize_bytes(bytes),
        }
    }
}

impl Drop for Keyfile {
    fn drop(&mut self)
        ensures
            match old(self)@ {
                KeyfileModel::Path(_) => final(self)@ == KeyfileModel::Path(Seq::<char>::empty()),
                KeyfileModel::Bytes(_) => final(self)@ == KeyfileModel::Bytes(Seq::<u8>::empty()),
            },
        opens_invariants none
        no_unwind
    {
        self.zeroize();
    }
}

/// An optional keyfile as the contracts speak of it.
pub open spec fn keyfile_view(keyfile: Option<Keyfile>) -> Option<KeyfileModel> {
    match keyfile {
        Some(k) => Some(k@),
        None => None,
    }
}

/// What an optional reference to a keyfile says.
pub open spec fn keyfile_arg_view(keyfile: Option<KeyfileRef>) -> Option<KeyfileModel> {
    match keyfile {
        Some(k) => Some(keyfile_ref_view(k)),
        None => None,
    }
}

/// Credentials as the contracts speak of them.
pub struct CredentialsModel {
    pub master: Seq<char>,
    pub keyfile: Option<KeyfileModel>,
}

/// What opened the vault, kept for as long as it is open. Dropping it wipes both parts.
pub struct SessionCredentials {
    master: MasterPassword,
    keyfile: Option<Keyfile>,
}

impl View for SessionCredentials {
    type V = CredentialsModel;

    closed spec fn view(&self) -> CredentialsModel {
        CredentialsModel { master: self.master@, keyfile: keyfile_view(self.keyfile) }
    }
}

impl SessionCredentials {
    pub fn new(master: MasterPassword, keyfile: Option<Keyfile>) -> (credentials: SessionCredentials)
        ensures
            credentials@ == (CredentialsModel { master: master@, keyfile: keyfile_view(keyfile) }),
            credentials@.master == master@,
            keyfile is None ==> credentials@.keyfile is None,
            keyfile matches Some(k) ==> credentials@.keyfile == Some(k@),
    {
        SessionCredentials { master, keyfile }
    }

    pub fn master(&self) -> (master: &MasterPassword)
        ensures
            master@ == self@.master,
    {
        &self.master
    }

    pub fn keyfile(&self) -> (keyfile: Option<&Keyfile>)
        ensures
            match keyfile {
                Some(k) => self@.keyfile == Some(k@),
                None => self@.keyfile is None,
            },
    {
        match &self.keyfile {
            Some(k) => Some(k),
            None => None,
        }
    }

    /// The text that stands for credentials in logs. It is the same for all of them.
    pub fn debug_text(&self) -> (text: &'static str)
        ensures
            text@ == "SessionCredentials(***)"@,
    {
        "SessionCredentials(***)"
    }
}

impl Drop for SessionCredentials {
    /// Wipes the keyfile and lets go of it. The master password's own drop comes after
    /// that and wipes the password.
    fn drop(&mut self)
        ensures
            final(self)@.keyfile is None,
            final(self)@.master == old(self)@.master,
        opens_invariants none
        no_unwind
    {
        if let Some(keyfile) = &mut self.keyfile {
            keyfile.zeroize();
        }
        self.keyfile = None;
    }
}

} // verus!
