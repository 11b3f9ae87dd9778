//! The process-wide syslog identity registry.
//!
//! The POSIX logging facility holds a single connection per process,
//! and `openlog` may keep the very pointer to the identity string it
//! was given.  So the process keeps one record of which owned identity
//! string is currently registered, and a syslog sink that owns its
//! identity may call `closelog` on teardown only while its own identity
//! is still the one recorded — never someone else's.
//!
//! The registry here is the state of that record; the shell around the
//! crate keeps one value of it behind the same process-wide mutex under
//! which it calls `openlog` and `closelog`, and identifies each owned
//! identity string by a token of its choosing (the string's address).

use vstd::prelude::*;

verus! {

/// The process-wide record of which owned identity string, if any, is
/// currently registered with the OS logging facility.  At most one is,
/// at any time.
#[derive(Debug, Clone, Copy, PartialEq, Eq, Structural)]
pub struct SyslogIdentityRegistry {
    /// The token of the currently registered owned identity string,
    /// if the current identity is an owned string at all.
    pub current: Option<u64>,
}

impl SyslogIdentityRegistry {
    /// A fresh registry: nothing is registered.
    pub fn new() -> (r: SyslogIdentityRegistry)
        ensures
            r.current is None,
    {
        SyslogIdentityRegistry { current: None }
    }

    /// Notes a call of the OS `open` primitive.  A call with no
    /// identity string leaves the previous registration in place; a
    /// call with one replaces it — by the token of the new string when
    /// the caller owns it, by nothing when the string is borrowed and
    /// needs no teardown.
    pub fn note_openlog(&mut self, ident_present: bool, owned_token: Option<u64>)
        ensures
            final(self).current == if ident_present {
                owned_token
            } else {
                old(self).current
            },
    {
        if ident_present {
            self.current = owned_token;
        }
    }

    /// Decides a sink's teardown, given the token of the identity
    /// string it owns: the OS `close` primitive is called exactly when
    /// that string is still the registered one, and then the
    /// registration is cleared.  When another sink has registered a
    /// different identity since, nothing is closed and its
    /// registration stands.
    pub fn unregister_if_current(&mut self, token: u64) -> (must_close: bool)
        ensures
            must_close == (old(self).current == Some(token)),
            final(self).current == if must_close {
                None::<u64>
            } else {
                old(self).current
            },
    {
        let is_current = match self.current {
            Some(t) => t == token,
            None => false,
        };
        if is_current {
            self.current = None;
        }
        is_current
    }
}

} // verus!
