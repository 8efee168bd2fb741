use vstd::prelude::*;

verus! {

/// Where the icon of a search result comes from.
#[derive(Clone, Debug, PartialEq, Eq)]
pub enum IconRef {
    /// An icon located by name or path.
    Name(String),
    /// The icon of a mime type.
    Mime(String),
}

/// Which graphics card a launched application should run on.
#[derive(Clone, Copy, Debug, PartialEq, Eq, Structural)]
pub enum GpuChoice {
    Default,
    NonDefault,
    SpecificIdx(u32),
}

/// An extra way of launching a result.
#[derive(Clone, Debug, PartialEq, Eq)]
pub struct LaunchOption {
    pub id: u32,
    pub name: String,
}

/// One result of a search, to be shown in the slot numbered `id`.
#[derive(Clone, Debug, PartialEq, Eq)]
pub struct LauncherResult {
    pub id: u32,
    pub name: String,
    pub description: String,
    pub icon: Option<IconRef>,
    pub category_icon: Option<IconRef>,
    pub window: Option<(u32, u32)>,
}

/// A request sent to the launcher backend.
#[derive(Clone, Debug, PartialEq, Eq)]
pub enum LauncherRequest {
    /// Launch the result in the given slot.
    Activate(u32),
    /// Complete the input from the result in the given slot.
    Complete(u32),
    /// Ask the backend to end.
    Exit,
    /// Search for the given text.
    Search(String),
}

/// A response of the launcher backend.
#[derive(Clone, Debug, PartialEq, Eq)]
pub enum LauncherResponse {
    /// Acknowledges a request; nothing more to do.
    Close,
    /// Extra launch options of the result in slot `id`.
    Context { id: u32, options: Vec<LaunchOption> },
    /// The desktop entry at `path` is to be launched.
    DesktopEntry { path: String, gpu_preference: GpuChoice, action_name: Option<String> },
    /// The new list of search results.
    Update(Vec<LauncherResult>),
    /// Text that replaces the input.
    Fill(String),
}

/// Why a round trip with the backend failed.
#[derive(Clone, Debug, PartialEq, Eq)]
pub enum TransportError {
    /// The backend could not be started, or its pipes not taken.
    Spawn(String),
    /// Writing to or reading from the backend failed, or the backend closed
    /// its output.
    Io(String),
    /// The line read is not a response; it is kept for diagnostics.
    Decode(String),
    /// A request is already in flight.
    Busy,
    /// No request is in flight.
    Idle,
    /// The backend was asked to exit already.
    Exited,
}

/// serde_json::Error, the failure of a serialization or a parse; only
/// carried, never read.
#[verifier::external_type_specification]
#[verifier::external_body]
pub struct ExJsonError(serde_json::Error);

/// pop_launcher::Response, the backend's response as serde_json reads it;
/// only moved into `LauncherResponse`.
#[verifier::external_type_specification]
#[verifier::external_body]
pub struct ExResponse(pop_launcher::Response);

/// pop_launcher::SearchResult; only moved into `LauncherResult`.
#[verifier::external_type_specification]
#[verifier::external_body]
pub struct ExSearchResult(pop_launcher::SearchResult);

/// pop_launcher::IconSource; only moved into `IconRef`.
#[verifier::external_type_specification]
#[verifier::external_body]
pub struct ExIconSource(pop_launcher::IconSource);

/// pop_launcher::GpuPreference; only turned into `GpuChoice`.
#[verifier::external_type_specification]
#[verifier::external_body]
pub struct ExGpuPreference(pop_launcher::GpuPreference);

/// pop_launcher::ContextOption; only moved into `LaunchOption`.
#[verifier::external_type_specification]
#[verifier::external_body]
pub struct ExContextOption(pop_launcher::ContextOption);

/// The JSON text that serde_json makes of a search for `text`, as the
/// `pop_launcher::Request::Search` of it.
pub uninterp spec fn search_json(text: Seq<char>) -> Seq<char>;

/// The character of the decimal digit `d`.
pub open spec fn digit_char(d: nat) -> char {
    seq!['0', '1', '2', '3', '4', '5', '6', '7', '8', '9'][d as int]
}

/// The decimal digits of `n`, without leading zeros.
pub open spec fn decimal(n: nat) -> Seq<char>
    decreases n,
{
    if n < 10 {
        seq![digit_char(n)]
    } else {
        decimal(n / 10).push(digit_char(n % 10))
    }
}

/// The JSON text of `request` on the wire: a one-key object for a request
/// with a value, the bare name in quotes for `Exit`.
pub open spec fn request_json(request: LauncherRequest) -> Seq<char> {
    match request {
        LauncherRequest::Activate(i) => "{\"Activate\":"@ + decimal(i as nat) + "}"@,
        LauncherRequest::Complete(i) => "{\"Complete\":"@ + decimal(i as nat) + "}"@,
        LauncherRequest::Exit => "\"Exit\""@,
        LauncherRequest::Search(text) => search_json(text@),
    }
}

/// The response that serde_json reads from `text` as a
/// `pop_launcher::Response`, or `None` where `text` holds none.
pub uninterp spec fn response_of_json(text: Seq<char>) -> Option<LauncherResponse>;

/// Relies on serde_json::to_string of a pop_launcher::Request, which never
/// fails: the derived `Serialize` of `Request` holds no map and never fails.
/// A request with a value is written as a one-key object of the variant's
/// name, `Exit` as its name in quotes, and an integer in decimal.
#[verifier::external_body]
fn request_to_json(request: &LauncherRequest) -> (r: Result<String, serde_json::Error>)
    ensures
        r is Ok,
        r->Ok_0@ == request_json(*request),
        *request is Search ==> r->Ok_0@ == search_json(request->Search_0@),
{
    serde_json::to_string(&match request {
        LauncherRequest::Activate(i) => pop_launcher::Request::Activate(*i),
        LauncherRequest::Complete(i) => pop_launcher::Request::Complete(*i),
        LauncherRequest::Exit => pop_launcher::Request::Exit,
        LauncherRequest::Search(text) => pop_launcher::Request::Search(text.clone()),
    })
}

/// Relies on serde_json::from_str of a pop_launcher::Response: the value
/// depends on the text alone.
#[verifier::external_body]
fn response_from_json(text: &str) -> (r: Result<LauncherResponse, serde_json::Error>)
    ensures
        r is Ok <==> response_of_json(text@) is Some,
        r is Ok ==> r->Ok_0 == response_of_json(text@)->0,
{
    serde_json::from_str::<pop_launcher::Response>(text).map(response_from_outside)
}

/// Moves the fields of a pop_launcher::Response into a `LauncherResponse`.
#[verifier::external_body]
fn response_from_outside(response: pop_launcher::Response) -> LauncherResponse {
    match response {
        pop_launcher::Response::Close => LauncherResponse::Close,
        pop_launcher::Response::Context { id, options } => {
            LauncherResponse::Context { id, options: options.into_iter().map(option_from_outside).collect() }
        },
        pop_launcher::Response::DesktopEntry { path, gpu_preference, action_name } => {
            let path = path.to_string_lossy().into_owned();
            LauncherResponse::DesktopEntry { path, gpu_preference: gpu_from_outside(gpu_preference), action_name }
        },
        pop_launcher::Response::Update(results) =>
            LauncherResponse::Update(results.into_iter().map(result_from_outside).collect()),
        pop_launcher::Response::Fill(text) => LauncherResponse::Fill(text),
    }
}

/// Moves the fields of a pop_launcher::SearchResult into a `LauncherResult`.
#[verifier::external_body]
fn result_from_outside(result: pop_launcher::SearchResult) -> LauncherResult {
    LauncherResult {
        id: result.id,
        name: result.name,
        description: result.description,
        icon: result.icon.map(icon_from_outside),
        category_icon: result.category_icon.map(icon_from_outside),
        window: result.window,
    }
}

/// Moves the name of a pop_launcher::IconSource into an `IconRef`.
#[verifier::external_body]
fn icon_from_outside(icon: pop_launcher::IconSource) -> IconRef {
    match icon {
        pop_launcher::IconSource::Name(name) => IconRef::Name(name.into_owned()),
        pop_launcher::IconSource::Mime(mime) => IconRef::Mime(mime.into_owned()),
    }
}

/// Turns a pop_launcher::GpuPreference into a `GpuChoice`.
#[verifier::external_body]
fn gpu_from_outside(gpu: pop_launcher::GpuPreference) -> GpuChoice {
    match gpu {
        pop_launcher::GpuPreference::Default => GpuChoice::Default,
        pop_launcher::GpuPreference::NonDefault => GpuChoice::NonDefault,
        pop_launcher::GpuPreference::SpecificIdx(i) => GpuChoice::SpecificIdx(i),
    }
}

/// Moves the fields of a pop_launcher::ContextOption into a `LaunchOption`.
#[verifier::external_body]
fn option_from_outside(option: pop_launcher::ContextOption) -> LaunchOption {
    LaunchOption { id: option.id, name: option.name }
}

/// The line sent to the backend for `request`: its JSON text and a newline.
pub open spec fn request_line(request: LauncherRequest) -> Seq<char> {
    request_json(request).push('\n')
}

/// Serializes `request` to the line that is written to the backend.
pub fn encode_request(request: &LauncherRequest) -> (r: String)
    ensures
        r@ == request_line(*request),
{
    let mut line = request_to_json(request).unwrap();
    line.append("\n");
    proof {
        reveal_strlit("\n");
    }
    line
}

/// The message of the I/O error for a backend that closed its output.
pub open spec fn closed_message() -> Seq<char> {
    "the launcher backend closed its output"@
}

/// What reading `line` from the backend yields: an I/O error for an empty
/// line, which the backend writes only when it has closed its output, else the response that it holds, else a decode error that keeps the
/// line.
pub open spec fn decoded(line: Seq<char>, r: Result<LauncherResponse, TransportError>) -> bool {
    if line.len() == 0 {
        r is Err && r->Err_0 is Io && r->Err_0->Io_0@ == closed_message()
    } else {
        match response_of_json(line) {
            Some(response) => r == Ok::<LauncherResponse, TransportError>(response),
            None => r is Err && r->Err_0 is Decode && r->Err_0->Decode_0@ == line,
        }
    }
}

/// Reads one response from a line that the backend wrote.
pub fn decode_response(line: &str) -> (r: Result<LauncherResponse, TransportError>)
    ensures
        decoded(line@, r),
{
    if line.is_empty() {
        return Err(TransportError::Io("the launcher backend closed its output".to_owned()));
    }
    match response_from_json(line) {
        Ok(response) => Ok(response),
        Err(_) => Err(TransportError::Decode(line.to_owned())),
    }
}

} // verus!
