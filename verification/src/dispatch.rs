//! The command dispatcher: routes the five commands of the surface —
//! execute-action, get-settings, set-settings, get-profiles, set-profiles —
//! to the decoder, the executor and the two resource stores. It is stateless
//! glue: it only holds the executor and the stores, created once at startup,
//! and converts failures to caller-facing text at the boundary.

use vstd::prelude::*;
use vstd::string::StringExecFns;

use crate::action::DecodeError;
use crate::action::decode;
use crate::action::token_grammar_accepts;
use crate::executor::ExecutionError;
use crate::executor::InputExecutor;
use crate::store::ResourceStore;

verus! {

/// Why one command failed: the payload was rejected before anything ran, or
/// the platform injection itself failed.
#[derive(Debug)]
pub enum CommandError {
    /// The action payload was malformed; nothing was executed.
    Decode(String),
    /// The decoded action could not be injected.
    Execution(String),
}

/// Whether a command result reports a decode failure.
pub open spec fn is_decode_error(r: Result<(), CommandError>) -> bool {
    match r {
        Err(CommandError::Decode(_)) => true,
        _ => false,
    }
}

impl CommandError {
    /// The caller-facing text of this failure.
    pub open spec fn spec_message(self) -> Seq<char> {
        match self {
            CommandError::Decode(cause) => "deserialization error: "@ + cause@,
            CommandError::Execution(cause) => cause@,
        }
    }

    /// Convert the failure to its caller-facing text, as the boundary does
    /// with every error: no error is retried, only reported.
    pub fn message(&self) -> (r: String)
        ensures
            r@ == self.spec_message(),
    {
        match self {
            CommandError::Decode(cause) => {
                String::from_str("deserialization error: ").concat(cause.as_str())
            },
            CommandError::Execution(cause) => cause.clone(),
        }
    }
}

/// The dispatcher: one executor for the input handle and one store per
/// document name, each with its own guard in the shell, so operations on
/// different documents never wait on each other.
pub struct Dispatcher {
    pub executor: InputExecutor,
    pub settings: ResourceStore,
    pub profiles: ResourceStore,
}

impl Dispatcher {
    /// Assemble the dispatcher from the components built once at startup.
    pub fn new(executor: InputExecutor, settings: ResourceStore, profiles: ResourceStore) -> (r:
        Dispatcher)
        ensures
            r.executor == executor,
            r.settings == settings,
            r.profiles == profiles,
    {
        Dispatcher { executor, settings, profiles }
    }

    /// execute-action: decode the payload, then execute the action. A decode
    /// failure is reported if and only if the grammar rejects the payload,
    /// and it short-circuits before the input handle is touched: the
    /// executor, and with it the injection history, is then unchanged. On a
    /// valid payload the only possible failure is an execution failure, and
    /// a success injects exactly the one decoded action. The stores are
    /// never involved.
    pub fn enigo_execute_token(&mut self, action: &str) -> (r: Result<(), CommandError>)
        ensures
            is_decode_error(r) <==> !token_grammar_accepts(action@),
            !token_grammar_accepts(action@) ==> final(self).executor == old(self).executor,
            r is Ok ==> final(self).executor.injected().len() == old(
                self,
            ).executor.injected().len() + 1,
            r is Err ==> final(self).executor.injected() == old(self).executor.injected(),
            old(self).executor.injected().is_prefix_of(final(self).executor.injected()),
            final(self).settings == old(self).settings,
            final(self).profiles == old(self).profiles,
    {
        let token = match decode(action) {
            Ok(token) => token,
            Err(DecodeError { cause }) => {
                return Err(CommandError::Decode(cause));
            },
        };
        match self.executor.execute(&token) {
            Ok(()) => Ok(()),
            Err(ExecutionError { cause }) => Err(CommandError::Execution(cause)),
        }
    }

    /// get-settings: the settings document; never fails, never changes
    /// anything.
    pub fn get_settings(&self) -> (r: String)
        ensures
            r@ == self.settings.document(),
    {
        self.settings.get()
    }

    /// set-settings: replace the settings document, touching neither the
    /// profiles store nor the executor.
    pub fn set_settings(&mut self, settings: String)
        ensures
            final(self).settings == old(self).settings.spec_set(settings),
            final(self).settings.document() == settings@,
            final(self).profiles == old(self).profiles,
            final(self).executor == old(self).executor,
    {
        self.settings.set(settings);
    }

    /// get-profiles: the profiles document; never fails, never changes
    /// anything.
    pub fn get_profiles(&self) -> (r: String)
        ensures
            r@ == self.profiles.document(),
    {
        self.profiles.get()
    }

    /// set-profiles: replace the profiles document, touching neither the
    /// settings store nor the executor.
    pub fn set_profiles(&mut self, profiles: String)
        ensures
            final(self).profiles == old(self).profiles.spec_set(profiles),
            final(self).profiles.document() == profiles@,
            final(self).settings == old(self).settings,
            final(self).executor == old(self).executor,
    {
        self.profiles.set(profiles);
    }
}

} // verus!
