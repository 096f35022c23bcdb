//! The input executor: owner of the process's one handle to the platform
//! input-injection channel. The handle is opened lazily on first use and is
//! never cloned; callers reach it only through `&mut self`, and the shell
//! puts the executor behind one exclusive lock, so injections never
//! interleave. A failed injection is fatal to its one request only: the
//! handle stays usable afterwards.

use vstd::prelude::*;

use enigo::Enigo;
use enigo::Settings;
use enigo::agent::Agent;
use enigo::agent::Token;

verus! {

#[verifier::external_type_specification]
#[verifier::external_body]
pub struct ExEnigo(Enigo);

#[verifier::external_type_specification]
#[verifier::external_body]
pub struct ExSettings(Settings);

#[verifier::external_type_specification]
#[verifier::external_body]
pub struct ExInputError(enigo::InputError);

#[verifier::external_type_specification]
#[verifier::external_body]
pub struct ExNewConError(enigo::NewConError);

/// A platform injection request that failed, with the underlying cause;
/// fatal to the one request, not to the input handle.
#[derive(Debug)]
pub struct ExecutionError {
    pub cause: String,
}

/// Relies on `enigo::Settings::default`: the default connection settings.
#[verifier::external_body]
fn default_settings() -> Settings {
    Settings::default()
}

/// Relies on `enigo::Enigo::new`: opens the connection to the platform
/// input-injection subsystem, or reports why none could be established.
#[verifier::external_body]
fn open_handle(settings: &Settings) -> Result<Enigo, enigo::NewConError> {
    Enigo::new(settings)
}

/// Relies on `enigo::agent::Agent::execute` for `Enigo`: performs the one
/// platform-level injection the token stands for; the outcome depends on the
/// platform session, so nothing is promised of it.
#[verifier::external_body]
fn inject(handle: &mut Enigo, token: &Token) -> Result<(), enigo::InputError> {
    handle.execute(token)
}

/// Relies on `Display for enigo::InputError` (through `ToString`): renders
/// an injection failure as human-readable text.
#[verifier::external_body]
fn input_error_text(e: &enigo::InputError) -> String {
    e.to_string()
}

/// Relies on `Display for enigo::NewConError` (through `ToString`): renders
/// a connection failure as human-readable text.
#[verifier::external_body]
fn connection_error_text(e: &enigo::NewConError) -> String {
    e.to_string()
}

/// The input executor. `history` holds the tokens whose platform injection
/// completed, in the order the calls held the handle.
pub struct InputExecutor {
    handle: Option<Enigo>,
    history: Ghost<Seq<Token>>,
}

impl InputExecutor {
    /// The tokens whose platform injection completed, in order.
    pub closed spec fn injected(self) -> Seq<Token> {
        self.history@
    }

    /// A fresh executor: no platform connection yet (the handle is opened on
    /// first use) and nothing injected.
    pub fn new() -> (r: InputExecutor)
        ensures
            r.injected() == Seq::<Token>::empty(),
    {
        InputExecutor { handle: None, history: Ghost(Seq::empty()) }
    }

    /// Execute one decoded action: perform the platform injection it stands
    /// for, atomically with respect to every other caller (exclusive access
    /// through `&mut self`). Exactly the successful injections extend the
    /// history, one per call; on failure the handle remains usable and
    /// nothing was recorded.
    pub fn execute(&mut self, token: &Token) -> (r: Result<(), ExecutionError>)
        ensures
            r is Ok ==> final(self).injected() == old(self).injected().push(*token),
            r is Err ==> final(self).injected() == old(self).injected(),
    {
        let mut handle: Enigo = match self.handle.take() {
            Some(h) => h,
            None => {
                let settings = default_settings();
                match open_handle(&settings) {
                    Ok(h) => h,
                    Err(e) => {
                        return Err(ExecutionError { cause: connection_error_text(&e) });
                    },
                }
            },
        };
        let result = inject(&mut handle, token);
        self.handle = Some(handle);
        match result {
            Ok(()) => {
                self.history = Ghost(self.history@.push(*token));
                Ok(())
            },
            Err(e) => Err(ExecutionError { cause: input_error_text(&e) }),
        }
    }
}

} // verus!
