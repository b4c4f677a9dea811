//! Properties of the adapter that span its handshake, its requests and its
//! replies, stated over the state machine's abstract model.

use vstd::prelude::*;
use crate::adapter::{
    announced, configured_after_init, format_invocation, formatter_of, next_configuration,
    outcome_reply, step_of, PathModel, RequestModel, ResponseModel, StepModel,
    PACING_DELAY_SECONDS,
};
use crate::protocol::{
    file_scheme, formatting_name, initialize_name, invalid_path_text, method_kind,
    unsupported_text, MethodKind,
};

verus! {

/// After a fresh adapter's handshake, the formatter it runs on a local file is
/// the `prettierPath` option when that is a non-empty string, and `prettier`
/// when the option is missing, empty or not a string.
pub proof fn lemma_handshake_chooses_formatter(
    offered: Option<Seq<char>>,
    uri: Seq<char>,
    path: Seq<char>,
)
    requires
        file_scheme(uri),
    ensures
        ({
            let configured = next_configuration(None, RequestModel::Initialize(offered));
            let expected = match offered {
                Some(p) => if p.len() > 0 {
                    p
                } else {
                    "prettier"@
                },
                None => "prettier"@,
            };
            &&& formatter_of(configured) == expected
            &&& step_of(configured, RequestModel::Formatting(uri, PathModel::Local(path)))
                == StepModel::Execute(
                format_invocation(expected, path),
                PACING_DELAY_SECONDS as nat,
            )
        }),
{
}

/// Every handshake announces document formatting and nothing else, whatever
/// it offers and whatever was configured before.
pub proof fn lemma_handshake_announces_formatting(
    configured: Option<Seq<char>>,
    offered: Option<Seq<char>>,
)
    ensures
        step_of(configured, RequestModel::Initialize(offered)) == StepModel::Respond(
            ResponseModel::Capabilities(announced()),
        ),
        announced().document_formatting_provider,
{
}

/// A formatting request whose URI is not a `file` URI is answered with the
/// error that names the URI; nothing is run and the configuration stays.
pub proof fn lemma_non_file_uri_rejected(
    configured: Option<Seq<char>>,
    uri: Seq<char>,
    resolution: PathModel,
)
    requires
        !file_scheme(uri),
    ensures
        step_of(configured, RequestModel::Formatting(uri, resolution)) == StepModel::Respond(
            ResponseModel::Failure(invalid_path_text(uri)),
        ),
        next_configuration(configured, RequestModel::Formatting(uri, resolution))
            == configured,
{
}

/// A formatting request for a local file `path` runs the configured formatter
/// as `F --write path` after a delay of at least two seconds, and the reply is
/// the success flag that the run reports.
pub proof fn lemma_local_file_runs_formatter(
    configured: Option<Seq<char>>,
    uri: Seq<char>,
    path: Seq<char>,
    success: bool,
)
    requires
        file_scheme(uri),
    ensures
        ({
            let program = formatter_of(configured);
            &&& step_of(configured, RequestModel::Formatting(uri, PathModel::Local(path)))
                == StepModel::Execute(
                format_invocation(program, path),
                PACING_DELAY_SECONDS as nat,
            )
            &&& format_invocation(program, path).args == seq!["--write"@, path]
            &&& PACING_DELAY_SECONDS >= 2
            &&& outcome_reply(Ok(success)) == ResponseModel::Formatted(success)
        }),
{
}

/// A method other than the handshake and formatting is answered with an
/// error whose message contains the method name; the configuration stays.
pub proof fn lemma_unsupported_method_rejected(configured: Option<Seq<char>>, method: Seq<char>)
    requires
        method != initialize_name(),
        method != formatting_name(),
    ensures
        method_kind(method) == MethodKind::Unsupported,
        step_of(configured, RequestModel::Unsupported(method)) == StepModel::Respond(
            ResponseModel::Failure(unsupported_text(method)),
        ),
        ({
            let start = "Prettier plugin does not support method '"@.len() as int;
            unsupported_text(method).subrange(start, start + method.len()) == method
        }),
        next_configuration(configured, RequestModel::Unsupported(method)) == configured,
{
    let prefix = "Prettier plugin does not support method '"@;
    let start = prefix.len() as int;
    assert(unsupported_text(method).subrange(start, start + method.len()) =~= method);
}

} // verus!
