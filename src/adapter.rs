//! The adapter's state machine: the configuration it holds, the requests it
//! takes, and what it answers or asks the host to run for each.

use vstd::prelude::*;
use crate::protocol::{
    file_scheme, has_file_scheme, invalid_path_message, invalid_path_text,
    invalid_unicode_message, invalid_unicode_text, unsupported_method_message, unsupported_text,
};

verus! {

/// Seconds the adapter waits before it runs the formatter, so that the host
/// does not read the document before the rewrite lands.
pub const PACING_DELAY_SECONDS: u64 = 2;

/// The capabilities announced in reply to the handshake. Only document
/// formatting is ever announced; every other capability keeps its default.
#[derive(Clone, Copy, Debug, PartialEq, Eq, Structural)]
pub struct Capabilities {
    pub document_formatting_provider: bool,
}

/// What resolving a document URI to a local path gave.
#[derive(Clone, Debug, PartialEq, Eq)]
pub enum PathResolution {
    /// The URI names no local file.
    NotLocalFile,
    /// The local path is not valid text.
    NotUnicode,
    /// The local path, as text.
    Local(String),
}

/// The abstract value of a `PathResolution`.
pub enum PathModel {
    NotLocalFile,
    NotUnicode,
    Local(Seq<char>),
}

impl View for PathResolution {
    type V = PathModel;

    open spec fn view(&self) -> PathModel {
        match self {
            PathResolution::NotLocalFile => PathModel::NotLocalFile,
            PathResolution::NotUnicode => PathModel::NotUnicode,
            PathResolution::Local(p) => PathModel::Local(p@),
        }
    }
}

/// A request from the host, decoded according to its method.
#[derive(Clone, Debug, PartialEq, Eq)]
pub enum Request {
    /// The handshake, with the `prettierPath` option when it holds a string.
    Initialize { prettier_path: Option<String> },
    /// A formatting request for the document at `uri`.
    Formatting { uri: String, resolution: PathResolution },
    /// Any other method.
    Unsupported { method: String },
}

/// The abstract value of a `Request`.
pub enum RequestModel {
    Initialize(Option<Seq<char>>),
    Formatting(Seq<char>, PathModel),
    Unsupported(Seq<char>),
}

/// The characters of an optional string.
pub open spec fn option_text(o: Option<String>) -> Option<Seq<char>> {
    match o {
        Some(s) => Some(s@),
        None => None,
    }
}

impl View for Request {
    type V = RequestModel;

    open spec fn view(&self) -> RequestModel {
        match self {
            Request::Initialize { prettier_path } => RequestModel::Initialize(
                option_text(*prettier_path),
            ),
            Request::Formatting { uri, resolution } => RequestModel::Formatting(
                uri@,
                resolution@,
            ),
            Request::Unsupported { method } => RequestModel::Unsupported(method@),
        }
    }
}

/// One run of the formatter: a program and its arguments.
#[derive(Clone, Debug, PartialEq, Eq)]
pub struct Invocation {
    pub program: String,
    pub args: Vec<String>,
}

/// The abstract value of an `Invocation`.
pub struct InvocationModel {
    pub program: Seq<char>,
    pub args: Seq<Seq<char>>,
}

impl View for Invocation {
    type V = InvocationModel;

    open spec fn view(&self) -> InvocationModel {
        InvocationModel { program: self.program@, args: self.args@.map_values(|a: String| a@) }
    }
}

/// A reply to the host.
#[derive(Clone, Debug, PartialEq, Eq)]
pub enum Response {
    /// The handshake's reply.
    Capabilities(Capabilities),
    /// Whether the formatter reported success.
    Formatted(bool),
    /// An error reply with its message.
    Failure(String),
}

/// The abstract value of a `Response`.
pub enum ResponseModel {
    Capabilities(Capabilities),
    Formatted(bool),
    Failure(Seq<char>),
}

impl View for Response {
    type V = ResponseModel;

    open spec fn view(&self) -> ResponseModel {
        match self {
            Response::Capabilities(c) => ResponseModel::Capabilities(*c),
            Response::Formatted(b) => ResponseModel::Formatted(*b),
            Response::Failure(m) => ResponseModel::Failure(m@),
        }
    }
}

/// What the adapter does with a request: answer at once, or have the host
/// run the formatter after a delay and answer with its outcome.
#[derive(Clone, Debug, PartialEq, Eq)]
pub enum Step {
    Respond(Response),
    Execute { invocation: Invocation, delay_seconds: u64 },
}

/// The abstract value of a `Step`.
pub enum StepModel {
    Respond(ResponseModel),
    Execute(InvocationModel, nat),
}

impl View for Step {
    type V = StepModel;

    open spec fn view(&self) -> StepModel {
        match self {
            Step::Respond(r) => StepModel::Respond(r@),
            Step::Execute { invocation, delay_seconds } => StepModel::Execute(
                invocation@,
                *delay_seconds as nat,
            ),
        }
    }
}

/// The formatter path after a handshake that offered `offered`: a non-empty
/// string replaces the configured path, anything else leaves it.
pub open spec fn configured_after_init(
    current: Option<Seq<char>>,
    offered: Option<Seq<char>>,
) -> Option<Seq<char>> {
    match offered {
        Some(p) => if p.len() > 0 {
            Some(p)
        } else {
            current
        },
        None => current,
    }
}

/// The formatter command: the configured path, or `prettier`.
pub open spec fn formatter_of(configured: Option<Seq<char>>) -> Seq<char> {
    match configured {
        Some(p) => p,
        None => "prettier"@,
    }
}

/// The capabilities announced by every handshake.
pub open spec fn announced() -> Capabilities {
    Capabilities { document_formatting_provider: true }
}

/// The run of the formatter `program` on the local file `path`.
pub open spec fn format_invocation(program: Seq<char>, path: Seq<char>) -> InvocationModel {
    InvocationModel { program, args: seq!["--write"@, path] }
}

/// What a formatting request for `uri` resolves to under a configuration.
pub open spec fn formatting_plan(
    configured: Option<Seq<char>>,
    uri: Seq<char>,
    resolution: PathModel,
) -> Result<InvocationModel, Seq<char>> {
    if !file_scheme(uri) {
        Err(invalid_path_text(uri))
    } else {
        match resolution {
            PathModel::NotLocalFile => Err(invalid_path_text(uri)),
            PathModel::NotUnicode => Err(invalid_unicode_text(uri)),
            PathModel::Local(p) => Ok(format_invocation(formatter_of(configured), p)),
        }
    }
}

/// The reply to the formatter's outcome: its success flag, or its error.
pub open spec fn outcome_reply(outcome: Result<bool, Seq<char>>) -> ResponseModel {
    match outcome {
        Ok(b) => ResponseModel::Formatted(b),
        Err(e) => ResponseModel::Failure(e),
    }
}

/// The configuration after a request.
pub open spec fn next_configuration(
    configured: Option<Seq<char>>,
    request: RequestModel,
) -> Option<Seq<char>> {
    match request {
        RequestModel::Initialize(offered) => configured_after_init(configured, offered),
        _ => configured,
    }
}

/// What the adapter does with a request under a configuration.
pub open spec fn step_of(configured: Option<Seq<char>>, request: RequestModel) -> StepModel {
    match request {
        RequestModel::Initialize(_) => StepModel::Respond(
            ResponseModel::Capabilities(announced()),
        ),
        RequestModel::Formatting(uri, resolution) => match formatting_plan(
            configured,
            uri,
            resolution,
        ) {
            Ok(inv) => StepModel::Execute(inv, PACING_DELAY_SECONDS as nat),
            Err(e) => StepModel::Respond(ResponseModel::Failure(e)),
        },
        RequestModel::Unsupported(method) => StepModel::Respond(
            ResponseModel::Failure(unsupported_text(method)),
        ),
    }
}

/// The adapter's state: the formatter path set by the handshake, if any.
#[derive(Debug)]
pub struct State {
    pub prettier_path: Option<String>,
}

impl View for State {
    type V = Option<Seq<char>>;

    open spec fn view(&self) -> Option<Seq<char>> {
        option_text(self.prettier_path)
    }
}

impl Default for State {
    fn default() -> (r: State)
        ensures
            r@ == None::<Seq<char>>,
    {
        State::new()
    }
}

impl State {
    /// A fresh adapter, with no formatter path configured.
    pub fn new() -> (r: State)
        ensures
            r@ == None::<Seq<char>>,
    {
        State { prettier_path: None }
    }

    /// Takes the handshake's `prettierPath` option and returns the
    /// capabilities to announce.
    pub fn handle_init(&mut self, prettier_path: &Option<String>) -> (r: Capabilities)
        ensures
            final(self)@ == configured_after_init(old(self)@, option_text(*prettier_path)),
            r == announced(),
    {
        if let Some(p) = prettier_path {
            if !p.as_str().is_empty() {
                self.prettier_path = Some(p.clone());
            }
        }
        Capabilities { document_formatting_provider: true }
    }

    /// The formatter command: the configured path, or `prettier`.
    pub fn formatter_command(&self) -> (r: String)
        ensures
            r@ == formatter_of(self@),
    {
        match &self.prettier_path {
            Some(p) => p.clone(),
            None => String::from_str("prettier"),
        }
    }

    /// Turns a formatting request into the run of the formatter on the
    /// document's local file, or into the error that names the URI.
    pub fn handle_formatting(&self, uri: &str, resolution: &PathResolution) -> (r: Result<
        Invocation,
        String,
    >)
        ensures
            match r {
                Ok(inv) => formatting_plan(self@, uri@, resolution@) == Ok::<
                    InvocationModel,
                    Seq<char>,
                >(inv@),
                Err(e) => formatting_plan(self@, uri@, resolution@) == Err::<
                    InvocationModel,
                    Seq<char>,
                >(e@),
            },
    {
        if !has_file_scheme(uri) {
            return Err(invalid_path_message(uri));
        }
        match resolution {
            PathResolution::NotLocalFile => Err(invalid_path_message(uri)),
            PathResolution::NotUnicode => Err(invalid_unicode_message(uri)),
            PathResolution::Local(path) => {
                let program = self.formatter_command();
                let mut args: Vec<String> = Vec::new();
                args.push(String::from_str("--write"));
                args.push(path.clone());
                let inv = Invocation { program, args };
                assert(inv@.args =~= seq!["--write"@, path@]);
                Ok(inv)
            },
        }
    }

    /// Handles one request: updates the configuration and says what to do.
    pub fn handle_request(&mut self, request: &Request) -> (r: Step)
        ensures
            final(self)@ == next_configuration(old(self)@, request@),
            r@ == step_of(old(self)@, request@),
    {
        match request {
            Request::Initialize { prettier_path } => {
                let caps = self.handle_init(prettier_path);
                Step::Respond(Response::Capabilities(caps))
            },
            Request::Formatting { uri, resolution } => {
                match self.handle_formatting(uri.as_str(), resolution) {
                    Ok(invocation) => Step::Execute {
                        invocation,
                        delay_seconds: PACING_DELAY_SECONDS,
                    },
                    Err(e) => Step::Respond(Response::Failure(e)),
                }
            },
            Request::Unsupported { method } => {
                Step::Respond(Response::Failure(unsupported_method_message(method.as_str())))
            },
        }
    }
}

/// The reply to the formatter's outcome: its success flag, or its error.
pub fn formatting_response(outcome: Result<bool, String>) -> (r: Response)
    ensures
        r@ == outcome_reply(
            match outcome {
                Ok(b) => Ok::<bool, Seq<char>>(b),
                Err(e) => Err::<bool, Seq<char>>(e@),
            },
        ),
{
    match outcome {
        Ok(b) => Response::Formatted(b),
        Err(e) => Response::Failure(e),
    }
}

} // verus!
