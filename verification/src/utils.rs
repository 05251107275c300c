//! What every module shares: reading the host's argument tokens, resolving
//! the caller's name, and turning a handler's result into the status and the
//! diagnostic that the host is given.

use vstd::prelude::*;
use vstd::string::*;
use vstd::utf8::{decode_utf8, encode_utf8_decode_utf8, valid_utf8};
use crate::status::{
    result_view, spec_outcome, Denial, ErrorKind, Failure, FailureView, Status,
};

verus! {

/// The argument tokens as plain text, in the host's order.
pub open spec fn tokens(args: Seq<String>) -> Seq<Seq<char>> {
    Seq::new(args.len(), |i: int| args[i]@)
}

/// Whether `text` begins with `prefix`.
pub open spec fn has_prefix(text: Seq<char>, prefix: Seq<char>) -> bool {
    prefix.len() <= text.len() && text.subrange(0, prefix.len() as int) == prefix
}

/// `text` without its first `prefix.len()` characters: what follows the
/// prefix, for a text that begins with it.
pub open spec fn after_prefix(text: Seq<char>, prefix: Seq<char>) -> Seq<char> {
    text.subrange(prefix.len() as int, text.len() as int)
}

/// The value of the first token that begins with `key`: what follows the
/// key in that token. `None` if no token begins with `key`.
pub open spec fn named_value(args: Seq<Seq<char>>, key: Seq<char>) -> Option<Seq<char>>
    decreases args.len(),
{
    if args.len() == 0 {
        None
    } else if has_prefix(args[0], key) {
        Some(after_prefix(args[0], key))
    } else {
        named_value(args.drop_first(), key)
    }
}

/// The key and the value make up the token they were taken from: nothing of
/// the token is lost, and nothing but the one key is taken off it.
pub proof fn lemma_key_and_value_make_the_token(args: Seq<Seq<char>>, key: Seq<char>)
    requires
        named_value(args, key) is Some,
    ensures
        exists|i: int|
            0 <= i < args.len() && #[trigger] args[i] == key + named_value(args, key)->0,
    decreases args.len(),
{
    if has_prefix(args[0], key) {
        assert(args[0] =~= key + after_prefix(args[0], key));
    } else {
        let rest = args.drop_first();
        lemma_key_and_value_make_the_token(rest, key);
        let i = choose|i: int|
            0 <= i < rest.len() && #[trigger] rest[i] == key + named_value(rest, key)->0;
        assert(args[i + 1] == rest[i]);
    }
}

/// A value is found exactly when some token begins with the key.
pub proof fn lemma_named_value_found(args: Seq<Seq<char>>, key: Seq<char>)
    ensures
        named_value(args, key) is Some <==> exists|i: int|
            0 <= i < args.len() && has_prefix(#[trigger] args[i], key),
    decreases args.len(),
{
    if args.len() > 0 {
        if has_prefix(args[0], key) {
        } else {
            let rest = args.drop_first();
            lemma_named_value_found(rest, key);
            if named_value(rest, key) is Some {
                let i = choose|i: int| 0 <= i < rest.len() && has_prefix(#[trigger] rest[i], key);
                assert(has_prefix(args[i + 1], key));
            }
            if exists|i: int| 0 <= i < args.len() && has_prefix(#[trigger] args[i], key) {
                let i = choose|i: int| 0 <= i < args.len() && has_prefix(#[trigger] args[i], key);
                assert(has_prefix(rest[i - 1], key));
            }
        }
    }
}

/// The first match wins: tokens after the first one that begins with the key
/// do not change the value.
pub proof fn lemma_first_match_wins(
    before: Seq<Seq<char>>,
    hit: Seq<char>,
    after: Seq<Seq<char>>,
    key: Seq<char>,
)
    requires
        has_prefix(hit, key),
        forall|i: int| 0 <= i < before.len() ==> !has_prefix(#[trigger] before[i], key),
    ensures
        named_value(before.push(hit) + after, key) == Some(after_prefix(hit, key)),
    decreases before.len(),
{
    let all = before.push(hit) + after;
    if before.len() == 0 {
        assert(all[0] == hit);
    } else {
        assert(all[0] == before[0]);
        assert(all.drop_first() =~= before.drop_first().push(hit) + after);
        lemma_first_match_wins(before.drop_first(), hit, after, key);
    }
}

fn starts_with(text: &str, prefix: &str) -> (found: bool)
    ensures
        found == has_prefix(text@, prefix@),
{
    let text_len = text.unicode_len();
    let prefix_len = prefix.unicode_len();
    if prefix_len > text_len {
        return false;
    }
    let mut i: usize = 0;
    while i < prefix_len
        invariant
            i <= prefix_len <= text_len,
            text_len == text@.len(),
            prefix_len == prefix@.len(),
            forall|j: int| 0 <= j < i ==> text@[j] == prefix@[j],
        decreases prefix_len - i,
    {
        if text.get_char(i) != prefix.get_char(i) {
            assert(text@.subrange(0, prefix_len as int)[i as int] != prefix@[i as int]);
            return false;
        }
        i = i + 1;
    }
    assert(text@.subrange(0, prefix_len as int) =~= prefix@);
    true
}

fn strip_prefix<'a>(text: &'a str, prefix: &str) -> (rest: &'a str)
    requires
        has_prefix(text@, prefix@),
    ensures
        rest@ == after_prefix(text@, prefix@),
{
    let prefix_len = prefix.unicode_len();
    let text_len = text.unicode_len();
    text.substring_char(prefix_len, text_len)
}

/// The value of the first argument token that begins with `key`.
pub fn extract_named_value<'a>(args: &'a [String], key: &str) -> (value: Option<&'a str>)
    ensures
        match value {
            Some(text) => named_value(tokens(args@), key@) == Some(text@),
            None => named_value(tokens(args@), key@) is None,
        },
{
    let mut i: usize = 0;
    assert(tokens(args@).skip(0) =~= tokens(args@));
    while i < args.len()
        invariant
            i <= args.len(),
            named_value(tokens(args@), key@) == named_value(tokens(args@).skip(i as int), key@),
        decreases args.len() - i,
    {
        let token: &'a str = args[i].as_str();
        let ghost rest = tokens(args@).skip(i as int);
        assert(rest[0] == token@);
        assert(rest.drop_first() =~= tokens(args@).skip(i + 1));
        if starts_with(token, key) {
            return Some(strip_prefix(token, key));
        }
        i = i + 1;
    }
    assert(tokens(args@).skip(i as int).len() == 0);
    None
}

/// Whether one of the tokens is exactly `flag`.
pub open spec fn has_flag(args: Seq<Seq<char>>, flag: Seq<char>) -> bool {
    exists|i: int| 0 <= i < args.len() && #[trigger] args[i] == flag
}

/// Whether one of the argument tokens is exactly `flag`.
pub fn contains_flag(args: &[String], flag: &str) -> (found: bool)
    ensures
        found == has_flag(tokens(args@), flag@),
{
    let wanted = String::from_str(flag);
    let mut i: usize = 0;
    while i < args.len()
        invariant
            i <= args.len(),
            wanted@ == flag@,
            forall|j: int| 0 <= j < i ==> #[trigger] tokens(args@)[j] != flag@,
        decreases args.len() - i,
    {
        if args[i] == wanted {
            assert(tokens(args@)[i as int] == flag@);
            return true;
        }
        i = i + 1;
    }
    false
}

/// Whether the arguments ask for verbose diagnostics: the bare token `debug`.
pub open spec fn spec_is_debug(args: Seq<Seq<char>>) -> bool {
    has_flag(args, "debug"@)
}

/// Whether the argument tokens ask for verbose diagnostics.
pub fn is_debug(args: &[String]) -> (debug: bool)
    ensures
        debug == spec_is_debug(tokens(args@)),
{
    contains_flag(args, "debug")
}

/// Calls `core::str::from_utf8`, which gives the bytes back as text exactly
/// when they are valid UTF-8.
#[verifier::external_body]
pub(crate) fn utf8_text(bytes: &[u8]) -> (text: Option<&str>)
    ensures
        text is Some <==> valid_utf8(bytes@),
        text matches Some(string) ==> string.spec_bytes() == bytes@,
{
    core::str::from_utf8(bytes).ok()
}

/// What the host said when it was asked for the caller's name, or for a
/// secret: the bytes it gave, nothing, or the status it failed with.
pub type HostReply = Result<Option<Vec<u8>>, Denial>;

/// The mathematical value of a [`HostReply`].
pub open spec fn reply_view(reply: HostReply) -> Result<Option<Seq<u8>>, Denial> {
    match reply {
        Ok(Some(bytes)) => Ok(Some(bytes@)),
        Ok(None) => Ok(None),
        Err(code) => Err(code),
    }
}

/// The failure of a caller that the host does not know, or whose name is no
/// text: it maps to `UserUnknown`.
pub open spec fn unknown_user(kind: ErrorKind) -> FailureView {
    FailureView::bare(kind).tagged(Denial::UserUnknown)
}

/// The caller's name, or why there is none: the host's own
/// failure keeps the host's status; a missing name and a name that is not
/// valid UTF-8 are an unknown user.
pub open spec fn resolved(
    reply: Result<Option<Seq<u8>>, Denial>,
    pam_error: ErrorKind,
    unknown_user_error: ErrorKind,
) -> Result<Seq<char>, FailureView> {
    match reply {
        Err(code) => Err(FailureView::bare(pam_error).tagged(code)),
        Ok(None) => Err(unknown_user(unknown_user_error)),
        Ok(Some(bytes)) => if valid_utf8(bytes) {
            Ok(decode_utf8(bytes))
        } else {
            Err(unknown_user(unknown_user_error))
        },
    }
}

/// Resolves the caller's name from the host's reply.
pub fn get_username(reply: HostReply, pam_error: ErrorKind, unknown_user_error: ErrorKind) -> (name:
    Result<String, Failure>)
    ensures
        match name {
            Ok(text) => resolved(reply_view(reply), pam_error, unknown_user_error) == Ok::<
                Seq<char>,
                FailureView,
            >(text@),
            Err(failure) => resolved(reply_view(reply), pam_error, unknown_user_error) == Err::<
                Seq<char>,
                FailureView,
            >(failure@),
        },
{
    match reply {
        Err(code) => Err(Failure::new(pam_error).attach(code)),
        Ok(None) => Err(Failure::new(unknown_user_error).attach(Denial::UserUnknown)),
        Ok(Some(bytes)) => match utf8_text(bytes.as_slice()) {
            Some(text) => {
                proof {
                    encode_utf8_decode_utf8(text@);
                }
                Ok(String::from_str(text))
            },
            None => Err(Failure::new(unknown_user_error).attach(Denial::UserUnknown)),
        },
    }
}

/// The short diagnostic of a failure: its kind's description.
pub open spec fn short_message(failure: FailureView) -> Seq<char> {
    "Error: "@ + failure.kind.spec_message()
}

/// The causes of a failure as lines, the most recent first.
pub open spec fn cause_lines(causes: Seq<Seq<char>>) -> Seq<char>
    decreases causes.len(),
{
    if causes.len() == 0 {
        Seq::empty()
    } else {
        "\n  caused by: "@ + causes.last() + cause_lines(causes.drop_last())
    }
}

/// The verbose diagnostic of a failure: the short one and the whole chain of
/// causes below it.
pub open spec fn verbose_message(failure: FailureView) -> Seq<char> {
    short_message(failure) + cause_lines(failure.causes)
}

/// The diagnostic that is shown for a failure: none if the host asked for
/// silence, the verbose one if the arguments asked for it, else the short one.
pub open spec fn spec_print_error(failure: FailureView, silent: bool, is_debug: bool) -> Option<
    Seq<char>,
> {
    if silent {
        None
    } else if is_debug {
        Some(verbose_message(failure))
    } else {
        Some(short_message(failure))
    }
}

/// The text of an optional message.
pub open spec fn message_view(message: Option<String>) -> Option<Seq<char>> {
    match message {
        Some(text) => Some(text@),
        None => None,
    }
}

/// Words the diagnostic for a failure. Showing it is the caller's part.
pub fn print_error(error: &Failure, silent: bool, is_debug: bool) -> (message: Option<String>)
    ensures
        message_view(message) == spec_print_error(error@, silent, is_debug),
{
    if silent {
        return None;
    }
    let mut text = String::from_str("Error: ");
    text.append(error.kind.message().as_str());
    if is_debug {
        let ghost causes = error.causes.deep_view();
        let mut i: usize = error.causes.len();
        assert(causes.take(i as int) =~= causes);
        while i > 0
            invariant
                i <= error.causes.len(),
                causes == error.causes.deep_view(),
                text@ + cause_lines(causes.take(i as int)) == verbose_message(error@),
            decreases i,
        {
            let cause = error.causes[i - 1].as_str();
            let ghost before = text@;
            let ghost front = causes.take(i as int);
            assert(front.last() == cause@) by {
                assert(causes[i - 1] == error.causes@[i - 1]@);
            }
            assert(front.drop_last() =~= causes.take(i - 1));
            text.append("\n  caused by: ");
            text.append(cause);
            assert(text@ + cause_lines(causes.take(i - 1)) =~= before + cause_lines(front));
            i = i - 1;
        }
        assert(text@ + cause_lines(causes.take(0)) =~= text@);
    }
    Some(text)
}

/// What the host is handed at the end of an invocation.
#[derive(Debug, PartialEq, Eq)]
pub struct Completion {
    /// The status that the entry point returns.
    pub status: Status,
    /// What is shown to the caller before that, if anything.
    pub diagnostic: Option<String>,
}

/// The result of a handler that ran on a worker: its own result, or the
/// designated failure if the worker did not come back with one.
pub open spec fn joined_result(
    result: Option<Result<(), FailureView>>,
    sandbox_panic_error: ErrorKind,
) -> Result<(), FailureView> {
    match result {
        Some(result) => result,
        None => Err(FailureView::bare(sandbox_panic_error)),
    }
}

/// The view of what a worker came back with.
pub open spec fn joined_view(result: Option<Result<(), Failure>>) -> Option<
    Result<(), FailureView>,
> {
    match result {
        Some(result) => Some(result_view(result)),
        None => None,
    }
}

/// The diagnostic for a handler's result: none for a success.
pub open spec fn spec_diagnostic(result: Result<(), FailureView>, silent: bool, is_debug: bool)
    -> Option<Seq<char>> {
    match result {
        Ok(_) => None,
        Err(failure) => spec_print_error(failure, silent, is_debug),
    }
}

/// Ends an invocation: takes what the handler came to (`None` if its worker
/// panicked), and gives the status for the host and the diagnostic to show.
/// Whether the diagnostic is verbose is read from the arguments.
pub fn do_call_handler(
    result: Option<Result<(), Failure>>,
    silent: bool,
    args: &[String],
    sandbox_panic_error: ErrorKind,
) -> (completion: Completion)
    ensures
        completion.status == spec_outcome(
            joined_result(joined_view(result), sandbox_panic_error),
        ),
        message_view(completion.diagnostic) == spec_diagnostic(
            joined_result(joined_view(result), sandbox_panic_error),
            silent,
            spec_is_debug(tokens(args@)),
        ),
        completion.status == Status::Success <==> result matches Some(Ok(_)),
{
    let is_debug = is_debug(args);
    let result = do_threaded_call(result, sandbox_panic_error);
    match result {
        Ok(_) => Completion { status: Status::Success, diagnostic: None },
        Err(failure) => {
            let diagnostic = print_error(&failure, silent, is_debug);
            Completion { status: failure.status(), diagnostic }
        },
    }
}

/// Settles what a handler that ran on a worker came to: a worker that
/// panicked is the designated failure.
pub fn do_threaded_call(result: Option<Result<(), Failure>>, sandbox_panic_error: ErrorKind) -> (joined:
    Result<(), Failure>)
    ensures
        result_view(joined) == joined_result(joined_view(result), sandbox_panic_error),
{
    match result {
        Some(result) => result,
        None => Err(Failure::new(sandbox_panic_error)),
    }
}

/// A worker that panicked ends the invocation with `AuthError`: the panic
/// never reaches the host and never counts as a success.
pub proof fn lemma_worker_panic_is_auth_error(sandbox_panic_error: ErrorKind)
    ensures
        spec_outcome(joined_result(None, sandbox_panic_error)) == Status::AuthError,
{
}

/// Whatever the handler came to, the invocation succeeds only if the handler
/// did.
pub proof fn lemma_only_success_succeeds(
    result: Option<Result<(), FailureView>>,
    sandbox_panic_error: ErrorKind,
)
    ensures
        spec_outcome(joined_result(result, sandbox_panic_error)) == Status::Success
            <==> result matches Some(Ok(_)),
{
}

/// Silence is kept: with the host's silent flag no diagnostic is worded.
pub proof fn lemma_silent_means_no_diagnostic(result: Result<(), FailureView>, is_debug: bool)
    ensures
        spec_diagnostic(result, true, is_debug) is None,
{
}

} // verus!
