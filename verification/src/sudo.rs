//! Protection against installing with `sudo` into another user's home.
//!
//! Many systems keep the invoking user's `$HOME` when `sudo` raises the
//! effective user id. Files written below `$HOME` are then owned by root
//! inside an ordinary user's directory tree. The guard compares `$HOME` with
//! the home directory registered for the effective user.

use vstd::prelude::*;
use vstd::string::*;
use crate::errors::{Error, ErrorView};
use crate::text::same_text;

verus! {

/// Environment variable that switches the guard off. Only a test runner
/// may set it; it must never be set in normal operation.
pub const SKIP_SUDO_CHECK_VAR: &'static str = "RUSTUP_INIT_SKIP_SUDO_CHECK";

/// The one value of [`SKIP_SUDO_CHECK_VAR`] that switches the guard off.
pub const SKIP_SUDO_CHECK_VALUE: &'static str = "yes";

/// What the caller found out about the identity of the process.
#[derive(Clone, Debug, PartialEq, Eq)]
pub struct IdentityProbe {
    /// The value of [`SKIP_SUDO_CHECK_VAR`], when it is set.
    pub skip_check: Option<String>,
    /// The value of `$HOME`, when it is set.
    pub env_home: Option<String>,
    /// The home directory that the identity database has for the effective
    /// user. `None` where the lookup failed, and on platforms that have no
    /// such database.
    pub user_home: Option<String>,
}

/// How the guard let an installation pass.
#[derive(Clone, Copy, Debug, PartialEq, Eq, Structural)]
pub enum SudoCheck {
    /// The two home directories agree, or could not be compared.
    Clear,
    /// They differ. The user is to be warned and may still go on.
    Warned,
}

impl IdentityProbe {
    /// Whether the guard is switched off.
    pub open spec fn bypassed(&self) -> bool {
        match self.skip_check {
            Some(value) => value@ == SKIP_SUDO_CHECK_VALUE@,
            None => false,
        }
    }

    /// Whether `$HOME` differs, character for character, from the home of
    /// the effective user. False when the guard is switched off and when
    /// either side is unknown.
    pub open spec fn spec_home_mismatch(&self) -> bool {
        !self.bypassed() && match (self.env_home, self.user_home) {
            (Some(env_home), Some(user_home)) => env_home@ != user_home@,
            _ => false,
        }
    }

    /// The error that stops an unattended installation on a mismatch.
    pub open spec fn mismatch_error(&self) -> ErrorView {
        ErrorView::PrivilegeMismatch {
            env_home: match self.env_home {
                Some(home) => home@,
                None => Seq::empty(),
            },
            user_home: match self.user_home {
                Some(home) => home@,
                None => Seq::empty(),
            },
        }
    }

    /// Whether `$HOME` differs from the home of the effective user.
    #[verifier::when_used_as_spec(spec_home_mismatch)]
    pub fn home_mismatch(&self) -> (mismatch: bool)
        ensures
            mismatch == self.spec_home_mismatch(),
    {
        let bypassed = match &self.skip_check {
            Some(value) => same_text(value.as_str(), SKIP_SUDO_CHECK_VALUE),
            None => false,
        };
        if bypassed {
            return false;
        }
        match (&self.env_home, &self.user_home) {
            (Some(env_home), Some(user_home)) => !same_text(
                env_home.as_str(),
                user_home.as_str(),
            ),
            _ => false,
        }
    }
}

/// Applies the policy of the guard.
///
/// Without a mismatch the check is `Clear`. With one, an unattended
/// installation (`no_prompt`) is stopped with `PrivilegeMismatch`, which
/// names both directories; an attended one passes as `Warned`, and whether
/// to go on is then the user's decision.
pub fn do_anti_sudo_check(probe: &IdentityProbe, no_prompt: bool) -> (checked: Result<
    SudoCheck,
    Error,
>)
    ensures
        checked is Err <==> probe.home_mismatch() && no_prompt,
        match checked {
            Ok(passed) => passed == if probe.home_mismatch() {
                SudoCheck::Warned
            } else {
                SudoCheck::Clear
            },
            Err(e) => e@ == probe.mismatch_error(),
        },
{
    if !probe.home_mismatch() {
        Ok(SudoCheck::Clear)
    } else if no_prompt {
        let env_home = match &probe.env_home {
            Some(home) => home.clone(),
            None => String::new(),
        };
        let user_home = match &probe.user_home {
            Some(home) => home.clone(),
            None => String::new(),
        };
        Err(Error::PrivilegeMismatch { env_home, user_home })
    } else {
        Ok(SudoCheck::Warned)
    }
}

} // verus!
