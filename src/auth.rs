//! Credentials for backends that ask for authorization, and the guard that keeps
//! the native library initialised at most once.
use vstd::prelude::*;

use crate::string::SaneString;
use crate::sys;

verus! {

/// Whether a character has a Latin-1 encoding.
pub open spec fn is_latin1(c: char) -> bool {
    (c as u32) < 256
}

/// The Latin-1 bytes of characters that all have one.
pub open spec fn latin1_bytes(s: Seq<char>) -> Seq<u8> {
    Seq::new(s.len(), |i: int| (s[i] as u32) as u8)
}

/// Why one credential field could not be written.
#[derive(Debug, Clone, Copy, PartialEq, Eq, Structural)]
pub enum AuthFieldError {
    NotLatin1,
    TooLong,
}

impl AuthFieldError {
    /// A description of the error.
    pub fn message(&self) -> (r: &'static str) {
        match self {
            AuthFieldError::NotLatin1 => "field contains non-Latin1 characters",
            AuthFieldError::TooLong => "field is too long",
        }
    }
}

/// Which credential could not be written, and why.
#[derive(Debug, Clone, Copy, PartialEq, Eq, Structural)]
pub enum AuthError {
    Username(AuthFieldError),
    Password(AuthFieldError),
}

/// Proof that credentials were written completely.
pub struct AuthOk(());

/// The error of writing `s` into a field of `cap` bytes: a character without a
/// Latin-1 encoding among those that fit, or no room left for the NUL.
pub open spec fn field_error(s: Seq<char>, cap: int) -> Option<AuthFieldError> {
    if exists|i: int| 0 <= i < s.len() && i < cap && !is_latin1(#[trigger] s[i]) {
        Some(AuthFieldError::NotLatin1)
    } else if s.len() >= cap {
        Some(AuthFieldError::TooLong)
    } else {
        None
    }
}

/// A field that holds the NUL-terminated Latin-1 encoding of `s`.
pub open spec fn holds_field(field: Seq<u8>, s: Seq<char>) -> bool {
    &&& s.len() < field.len()
    &&& field.subrange(0, s.len() as int) == latin1_bytes(s)
    &&& field[s.len() as int] == 0
}

/// The credential fields that an authorization request asks to be filled.
pub struct Authorizer {
    username: Vec<u8>,
    password: Vec<u8>,
}

impl Authorizer {
    pub closed spec fn spec_username(&self) -> Seq<u8> {
        self.username@
    }

    pub closed spec fn spec_password(&self) -> Seq<u8> {
        self.password@
    }

    /// Empty fields of the protocol's sizes.
    pub fn new() -> (r: Self)
        ensures
            r.spec_username().len() == sys::MAX_USERNAME_LEN,
            r.spec_password().len() == sys::MAX_PASSWORD_LEN,
    {
        Authorizer {
            username: vec![0u8; sys::MAX_USERNAME_LEN],
            password: vec![0u8; sys::MAX_PASSWORD_LEN],
        }
    }

    /// The longest username that fits, in bytes.
    pub fn max_username_len(&self) -> (r: usize)
        requires
            self.spec_username().len() > 0,
        ensures
            r == self.spec_username().len() - 1,
    {
        self.username.len() - 1
    }

    /// The longest password that fits, in bytes.
    pub fn max_password_len(&self) -> (r: usize)
        requires
            self.spec_password().len() > 0,
        ensures
            r == self.spec_password().len() - 1,
    {
        self.password.len() - 1
    }

    /// The username field.
    pub fn username_field(&self) -> (r: &[u8])
        ensures
            r@ == self.spec_username(),
    {
        self.username.as_slice()
    }

    /// The password field.
    pub fn password_field(&self) -> (r: &[u8])
        ensures
            r@ == self.spec_password(),
    {
        self.password.as_slice()
    }

    /// Writes both credentials, the username first.
    pub fn provide_credentials(&mut self, username: &str, password: &str) -> (r: Result<
        AuthOk,
        AuthError,
    >)
        ensures
            final(self).spec_username().len() == old(self).spec_username().len(),
            final(self).spec_password().len() == old(self).spec_password().len(),
            match field_error(username@, old(self).spec_username().len() as int) {
                Some(e) => r matches Err(AuthError::Username(f)) && f == e,
                None => match field_error(password@, old(self).spec_password().len() as int) {
                    Some(e) => r matches Err(AuthError::Password(f)) && f == e,
                    None => r is Ok && holds_field(final(self).spec_username(), username@)
                        && holds_field(final(self).spec_password(), password@),
                },
            },
    {
        match Self::write_str(&mut self.username, username) {
            Ok(()) => {},
            Err(e) => {
                return Err(AuthError::Username(e));
            },
        }
        match Self::write_str(&mut self.password, password) {
            Ok(()) => {},
            Err(e) => {
                return Err(AuthError::Password(e));
            },
        }
        Ok(AuthOk(()))
    }

    /// Writes both credentials, given as Latin-1 strings, the username first.
    pub fn provide_credentials_latin1(
        &mut self,
        username: &SaneString,
        password: &SaneString,
    ) -> (r: Result<AuthOk, AuthError>)
        requires
            username.wf(),
            password.wf(),
        ensures
            final(self).spec_username().len() == old(self).spec_username().len(),
            final(self).spec_password().len() == old(self).spec_password().len(),
            username.spec_bytes().len() + 1 > old(self).spec_username().len() ==> r == Err::<
                AuthOk,
                AuthError,
            >(AuthError::Username(AuthFieldError::TooLong)),
            username.spec_bytes().len() + 1 <= old(self).spec_username().len() && password.spec_bytes().len()
                + 1 > old(self).spec_password().len() ==> r == Err::<AuthOk, AuthError>(
                AuthError::Password(AuthFieldError::TooLong),
            ),
            username.spec_bytes().len() + 1 <= old(self).spec_username().len() && password.spec_bytes().len()
                + 1 <= old(self).spec_password().len() ==> r is Ok && final(
                self
            ).spec_username().subrange(0, username.spec_bytes().len() as int + 1) == username.spec_bytes().push(0)
                && final(self).spec_password().subrange(0, password.spec_bytes().len() as int + 1)
                == password.spec_bytes().push(0),
    {
        match Self::write_str_latin1(&mut self.username, username) {
            Ok(()) => {},
            Err(e) => {
                return Err(AuthError::Username(e));
            },
        }
        match Self::write_str_latin1(&mut self.password, password) {
            Ok(()) => {},
            Err(e) => {
                return Err(AuthError::Password(e));
            },
        }
        Ok(AuthOk(()))
    }

    fn write_str(target: &mut Vec<u8>, source: &str) -> (r: Result<(), AuthFieldError>)
        ensures
            final(target)@.len() == old(target)@.len(),
            match field_error(source@, old(target)@.len() as int) {
                Some(e) => r == Err::<(), AuthFieldError>(e),
                None => r is Ok && holds_field(final(target)@, source@),
            },
    {
        let len = source.unicode_len();
        let cap = target.len();
        let mut i: usize = 0;
        while i < len && i < cap
            invariant
                len == source@.len(),
                cap == target@.len(),
                target@.len() == old(target)@.len(),
                i <= len,
                i <= cap,
                forall|j: int| 0 <= j < i ==> is_latin1(#[trigger] source@[j]),
                forall|j: int| 0 <= j < i ==> target@[j] == latin1_bytes(source@)[j],
            decreases len - i,
        {
            let ch = source.get_char(i);
            if ch as u32 >= 256 {
                proof {
                    assert(!is_latin1(source@[i as int]));
                }
                return Err(AuthFieldError::NotLatin1);
            }
            target.set(i, ch as u32 as u8);
            i += 1;
        }
        if i == cap {
            return Err(AuthFieldError::TooLong);
        }
        target.set(i, 0);
        proof {
            assert(target@.subrange(0, len as int) =~= latin1_bytes(source@));
        }
        Ok(())
    }

    fn write_str_latin1(target: &mut Vec<u8>, source: &SaneString) -> (r: Result<
        (),
        AuthFieldError,
    >)
        requires
            source.wf(),
        ensures
            final(target)@.len() == old(target)@.len(),
            source.spec_bytes().len() + 1 > old(target)@.len() ==> r == Err::<(), AuthFieldError>(
                AuthFieldError::TooLong,
            ),
            source.spec_bytes().len() + 1 <= old(target)@.len() ==> r is Ok && final(
                target
            )@.subrange(0, source.spec_bytes().len() as int + 1) == source.spec_bytes().push(0),
    {
        let bytes = source.to_bytes_with_nul();
        if bytes.len() > target.len() {
            return Err(AuthFieldError::TooLong);
        }
        let mut i: usize = 0;
        while i < bytes.len()
            invariant
                i <= bytes@.len(),
                bytes@.len() <= target@.len(),
                target@.len() == old(target)@.len(),
                forall|j: int| 0 <= j < i ==> target@[j] == bytes@[j],
            decreases bytes@.len() - i,
        {
            target.set(i, bytes[i]);
            i += 1;
        }
        proof {
            assert(target@.subrange(0, bytes@.len() as int) =~= bytes@);
        }
        Ok(())
    }
}

/// Whether the native library is initialised: at most one session exists at a time.
#[derive(Debug)]
pub struct InstanceFlag {
    held: bool,
}

/// Whether an attempt to claim the flag in state `held` succeeds.
pub open spec fn claim_granted(held: bool) -> bool {
    !held
}

/// Whether the flag is held after an attempt to claim it.
pub open spec fn held_after_claim(held: bool) -> bool {
    true
}

/// Of two session initialisations whose lifetimes overlap (no release between the
/// two claims), the second is refused, whatever the flag was before the first.
pub proof fn lemma_second_claim_refused(held: bool)
    ensures
        !claim_granted(held_after_claim(held)),
{
}

impl InstanceFlag {
    pub closed spec fn spec_held(&self) -> bool {
        self.held
    }

    /// A flag that no session holds.
    pub fn new() -> (r: Self)
        ensures
            !r.spec_held(),
    {
        InstanceFlag { held: false }
    }

    /// Claims the flag for a new session; refused while another session holds it.
    pub fn try_claim(&mut self) -> (granted: bool)
        ensures
            granted == claim_granted(old(self).spec_held()),
            final(self).spec_held() == held_after_claim(old(self).spec_held()),
    {
        let granted = !self.held;
        self.held = true;
        granted
    }

    /// Releases the flag when a session ends or its initialisation failed.
    pub fn release(&mut self)
        ensures
            !final(self).spec_held(),
    {
        self.held = false;
    }

    pub fn is_held(&self) -> (r: bool)
        ensures
            r == self.spec_held(),
    {
        self.held
    }
}

} // verus!
