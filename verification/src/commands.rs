//! The commands that the user interface can call, as far as they decide
//! anything: what they answer, and under which name an answer that comes
//! later is sent.

use crate::portmaster::PortmasterPlugin;
use vstd::prelude::*;

verus! {

/// What a command answers: a text on success, and a text on failure.
pub type Result = std::result::Result<String, String>;

/// The answer that is sent in place of a result that could not be had.
#[derive(Clone, Debug, PartialEq, Eq)]
pub struct CommandError {
    pub error: String,
}

/// How many characters the name of an answer has where the application
/// makes it up.
pub const RESPONSE_ID_LENGTH: usize = 36;

/// `uuid::Uuid::new_v4` and the `Display` of its result: a fresh random
/// identifier in lower-case hyphenated notation, which has 36 characters.
/// Which identifier it is differs from call to call, so the contract
/// claims the length only. The call ends the program where the operating
/// system has no random bytes to give.
#[verifier::external_body]
fn fresh_response_id() -> (id: String)
    ensures
        id@.len() == RESPONSE_ID_LENGTH,
{
    uuid::Uuid::new_v4().to_string()
}

/// The name under which an answer is sent: the one that the caller gave,
/// or `fresh` where the caller gave none.
pub fn response_id_or(given: String, fresh: String) -> (id: String)
    ensures
        id@ == if given@.len() == 0 {
            fresh@
        } else {
            given@
        },
{
    if given.as_str().is_empty() {
        fresh
    } else {
        given
    }
}

/// The name under which an answer is sent: the one that the caller gave,
/// or a fresh random one where the caller gave none.
pub fn response_id(given: String) -> (id: String)
    ensures
        given@.len() > 0 ==> id@ == given@,
        given@.len() == 0 ==> id@.len() == RESPONSE_ID_LENGTH,
{
    if given.as_str().is_empty() {
        let fresh = fresh_response_id();
        response_id_or(given, fresh)
    } else {
        given
    }
}

/// Whether the user interface is to show its window once it has started:
/// "show" or "hide".
pub fn should_show<A, H>(portmaster: &PortmasterPlugin<A, H>) -> (answer: Result)
    ensures
        answer matches Ok(word) && word@ == if portmaster@.should_show_after_bootstrap {
            "show"@
        } else {
            "hide"@
        },
{
    if portmaster.get_show_after_bootstrap() {
        Ok("show".to_owned())
    } else {
        Ok("hide".to_owned())
    }
}

/// Whether the user interface is to handle connection prompts: "true" or
/// "false".
pub fn should_handle_prompts<A, H>(portmaster: &PortmasterPlugin<A, H>) -> (answer: Result)
    ensures
        answer matches Ok(word) && word@ == if portmaster@.handle_prompts {
            "true"@
        } else {
            "false"@
        },
{
    if portmaster.handles_prompts() {
        Ok("true".to_owned())
    } else {
        Ok("false".to_owned())
    }
}

/// The value that the user interface stored under `key`, or the empty text
/// where it stored none.
pub fn get_state<A, H>(portmaster: &PortmasterPlugin<A, H>, key: String) -> (answer: Result)
    ensures
        answer matches Ok(value) && value@ == if portmaster@.state.contains_key(key@) {
            portmaster@.state[key@]
        } else {
            Seq::<char>::empty()
        },
{
    let value = portmaster.get_state(key);
    if let Some(value) = value {
        Ok(value)
    } else {
        Ok(String::new())
    }
}

/// Stores `value` under `key` for the user interface, and answers with the
/// empty text.
pub fn set_state<A, H>(
    portmaster: &mut PortmasterPlugin<A, H>,
    key: String,
    value: String,
) -> (answer: Result)
    ensures
        final(portmaster)@.state == old(portmaster)@.state.insert(key@, value@),
        final(portmaster)@.is_reachable == old(portmaster)@.is_reachable,
        final(portmaster)@.api == old(portmaster)@.api,
        final(portmaster)@.handlers == old(portmaster)@.handlers,
        final(portmaster)@.handle_notifications == old(portmaster)@.handle_notifications,
        final(portmaster)@.handle_prompts == old(portmaster)@.handle_prompts,
        final(portmaster)@.should_show_after_bootstrap == old(
            portmaster,
        )@.should_show_after_bootstrap,
        answer matches Ok(empty) && empty@.len() == 0,
{
    portmaster.set_state(key, value);
    Ok(String::new())
}

} // verus!
