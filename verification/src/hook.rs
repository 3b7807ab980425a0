//! The hook installer's state: which profile's handler is in force.
//!
//! Registering the process-wide handler itself is a side effect that lives
//! outside this library; what is modelled and verified here is the
//! registration discipline -- exactly one handler in force, installation
//! replaces the previous one, and a failure is rendered by whichever
//! profile is installed at that moment.

use vstd::prelude::*;
use crate::failure::FailureInfo;
use crate::formatter::{PanicFormat, Empty, Simple, JustError, output_of};

verus! {

/// The shipped format profiles, by name.
#[derive(Clone, Copy, PartialEq, Eq, Structural)]
pub enum Profile {
    /// Render nothing.
    Empty,
    /// Prefix, location, payload, line break.
    Simple,
    /// The `Simple` rendering preceded by a stack trace.
    Debug,
    /// Payload and line break only.
    JustError,
}

/// Whether `out` is a text the given profile's handler may render for
/// `info`.
pub open spec fn rendered_by(p: Profile, info: FailureInfo, out: Seq<u8>) -> bool {
    match p {
        Profile::Empty => output_of::<Empty>(info, out),
        Profile::Simple => output_of::<Simple>(info, out),
        Profile::Debug => output_of::<crate::formatter::Debug>(info, out),
        Profile::JustError => output_of::<JustError>(info, out),
    }
}

/// Renders one failure exactly as the given profile's installed handler
/// would.
pub fn render_for(p: Profile, info: &FailureInfo) -> (out: Vec<u8>)
    ensures
        rendered_by(p, *info, out@),
{
    match p {
        Profile::Empty => {
            let out = Empty::print(info);
            proof {
                assert(<Empty as crate::formatter::Backtrace>::trace_spec(Seq::<u8>::empty()));
                assert(out@ =~= Seq::<u8>::empty() + <Empty as crate::formatter::Prefix>::prefix_spec() + <Empty as crate::formatter::PanicInfo>::info_spec(*info) + <Empty as crate::formatter::Suffix>::suffix_spec());
                assert(output_of::<Empty>(*info, out@));
            }
            out
        },
        Profile::Simple => Simple::print(info),
        Profile::Debug => crate::formatter::Debug::print(info),
        Profile::JustError => JustError::print(info),
    }
}

/// The handler-registration state after installing `p`: exactly `p`'s
/// handler is in force, whatever was installed before.
pub open spec fn install_result(h: HookState, p: Profile) -> HookState {
    HookState { installed: Some(p) }
}

/// The process-wide handler registration, as state with an explicit
/// lifecycle: no handler at first, exactly one in force after any
/// installation, replaceable at any time.
pub struct HookState {
    /// The profile whose handler is in force, or `None` before the first
    /// installation.
    pub installed: Option<Profile>,
}

impl HookState {
    /// The state before any installation.
    pub fn new() -> (h: HookState)
        ensures
            h.installed is None,
    {
        HookState { installed: None }
    }

    /// Installs `p`'s handler, replacing whatever was in force.
    pub fn install(&mut self, p: Profile)
        ensures
            *final(self) == install_result(*old(self), p),
    {
        self.installed = Some(p);
    }

    /// Renders one failure with whichever handler is in force; before any
    /// installation there is none, and nothing is rendered.
    pub fn handle(&self, info: &FailureInfo) -> (out: Option<Vec<u8>>)
        ensures
            match self.installed {
                None => out is None,
                Some(p) => out is Some && rendered_by(p, *info, out->Some_0@),
            },
    {
        match self.installed {
            None => None,
            Some(p) => Some(render_for(p, info)),
        }
    }
}

/// Law: installation is last-wins.  Installing one profile and then another
/// leaves exactly the state that installing the second alone would have
/// left: the first leaves no residue, and by `handle`'s contract all later
/// failures are rendered by the second profile alone.
pub proof fn lemma_last_install_wins(h: HookState, first: Profile, second: Profile)
    ensures
        install_result(install_result(h, first), second) == install_result(h, second),
{
}

} // verus!
