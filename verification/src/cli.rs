//! What the command line configures: storage, remote access and origins.

use vstd::prelude::*;

use crate::text;

verus! {

/// What the process is asked to run as.
#[derive(Clone, Debug)]
pub enum Commands {
    Local { db: String },
    Aws { bucket: String, region: String },
    Mcp {
        space_id: String,
        auth_token: Option<String>,
        auto_create_space: bool,
        auto_create_tier: u32,
        storage: Option<StorageCommand>,
    },
}

/// Where memory is stored.
#[derive(Clone, Debug)]
pub enum StorageCommand {
    Local { db: String },
    Aws { bucket: String, region: String },
}

/// The storage that a command selects; memory alone where it selects none.
pub fn storage_of(command: Option<Commands>) -> (r: Option<StorageCommand>)
    ensures
        r == match command {
            Some(Commands::Local { db }) => Some(StorageCommand::Local { db }),
            Some(Commands::Aws { bucket, region }) => Some(StorageCommand::Aws { bucket, region }),
            Some(Commands::Mcp { storage, .. }) => storage,
            None => None,
        },
{
    match command {
        Some(Commands::Local { db }) => Some(StorageCommand::Local { db }),
        Some(Commands::Aws { bucket, region }) => Some(StorageCommand::Aws { bucket, region }),
        Some(Commands::Mcp { storage, .. }) => storage,
        None => None,
    }
}

/// The name of a kind of storage, as it is logged.
pub fn storage_kind(storage: &Option<StorageCommand>) -> (r: &'static str)
    ensures
        r@ == match *storage {
            Some(StorageCommand::Local { .. }) => "local"@,
            Some(StorageCommand::Aws { .. }) => "aws"@,
            None => "memory"@,
        },
{
    match storage {
        Some(StorageCommand::Local { .. }) => "local",
        Some(StorageCommand::Aws { .. }) => "aws",
        None => "memory",
    }
}

/// A token that is given but empty is no token.
pub fn auth_token(token: Option<String>) -> (r: Option<String>)
    ensures
        r == match token {
            Some(t) => if t@.len() == 0 {
                None
            } else {
                Some(t)
            },
            None => None,
        },
{
    match token {
        Some(t) => if t.as_str().is_empty() {
            None
        } else {
            Some(t)
        },
        None => None,
    }
}

/// Matches every host name.
#[derive(Clone, Copy, Debug)]
pub struct AnyHost;

impl PartialEq<&str> for AnyHost {
    fn eq(&self, _other: &&str) -> (r: bool) {
        true
    }
}

impl vstd::std_specs::cmp::PartialEqSpecImpl<&str> for AnyHost {
    open spec fn obeys_eq_spec() -> bool {
        true
    }

    open spec fn eq_spec(&self, _other: &&str) -> bool {
        true
    }
}

/// Every host name is matched.
pub proof fn any_host_matches_all(host: AnyHost, name: &str)
    ensures
        vstd::std_specs::cmp::PartialEqSpec::eq_spec(&host, &name),
{
}

/// The values of a list that is separated by commas.
pub fn split_csv_values(input: &str) -> (r: Vec<String>)
    ensures
        text::views(r@) == text::values(text::split(input@, ',')),
{
    text::split_values(input, ',')
}

/// The values of a comma-separated setting are not blank, hold no comma and no
/// white space around them; joined by commas and split again they are the same.
pub proof fn csv_values_survive_joining(input: Seq<char>)
    ensures
        forall|i: int|
            0 <= i < text::values(text::split(input, ',')).len() ==> text::is_listed(
                #[trigger] text::values(text::split(input, ','))[i],
                ',',
            ),
        text::values(
            text::split(text::joined(text::values(text::split(input, ',')), ','), ','),
        ) == text::values(text::split(input, ',')),
{
    text::values_survive_joining(input, ',');
}

/// No value of a separated list is blank, or starts or ends with white space.
pub proof fn listed_values_are_trimmed(pieces: Seq<Seq<char>>, i: int)
    requires
        0 <= i < text::values(pieces).len(),
    ensures
        text::values(pieces)[i].len() > 0,
        !text::is_white_space(text::values(pieces)[i].first()),
        !text::is_white_space(text::values(pieces)[i].last()),
    decreases pieces.len(),
{
    if pieces.len() > 0 {
        let rest = text::values(pieces.drop_last());
        if i < rest.len() {
            listed_values_are_trimmed(pieces.drop_last(), i);
        } else {
            text::trimming_keeps_the_text_between(pieces.last());
        }
    }
}

/// A path prefix with one slash before it and none behind it.
pub open spec fn path_prefix(prefix: Seq<char>) -> Seq<char> {
    let bare = text::trimmed_end_of(text::trimmed(prefix), '/');
    if bare.len() == 0 {
        "/mcp"@
    } else if bare[0] == '/' {
        bare
    } else {
        "/"@ + bare
    }
}

pub fn normalize_http_path_prefix(prefix: &str) -> (r: String)
    ensures
        r@ == path_prefix(prefix@),
{
    let bare = text::trim_end_of(text::trim(prefix), '/');
    if bare.is_empty() {
        return "/mcp".to_owned();
    }
    proof {
        reveal_strlit("/");
        if bare@[0] == '/' {
            assert(bare@.subrange(0, 1) =~= "/"@);
        } else {
            assert(bare@.subrange(0, 1)[0] != "/"@[0]);
        }
    }
    if text::starts_with(bare, "/") {
        bare.to_owned()
    } else {
        let mut out = "/".to_owned();
        out.append(bare);
        out
    }
}

proof fn nothing_trimmed_is_left(s: Seq<char>, c: char)
    ensures
        text::trimmed_end_of(s, c).len() > 0 ==> text::trimmed_end_of(s, c).last() != c,
    decreases s.len(),
{
    if s.len() > 0 && s.last() == c {
        nothing_trimmed_is_left(s.drop_last(), c);
    }
}

/// Every path prefix starts with a slash and does not end with one.
pub proof fn path_prefixes_are_rooted(prefix: Seq<char>)
    ensures
        path_prefix(prefix).len() > 1,
        path_prefix(prefix)[0] == '/',
        path_prefix(prefix).last() != '/',
{
    let bare = text::trimmed_end_of(text::trimmed(prefix), '/');
    nothing_trimmed_is_left(text::trimmed(prefix), '/');
    reveal_strlit("/mcp");
    reveal_strlit("/");
    if bare.len() == 1 {
        assert(bare.last() == bare[0]);
    }
}

/// What the command line says about remote access.
#[derive(Debug)]
pub struct McpSettings {
    pub path_prefix: String,
    pub allowed_hosts: String,
    pub allowed_origins: String,
    pub auto_create_space: bool,
    pub auto_create_tier: u32,
}

/// How remote clients are served.
#[derive(Debug)]
pub struct McpHttpServerConfig {
    pub path_prefix: String,
    pub auto_create_space: bool,
    pub auto_create_tier: u32,
    pub allowed_hosts: Vec<String>,
    pub allowed_origins: Vec<String>,
    pub stateful_mode: bool,
    pub json_response: bool,
    pub sse_keep_alive_secs: Option<u64>,
}

pub fn mcp_http_config_from_cli(cli: &McpSettings) -> (r: McpHttpServerConfig)
    ensures
        r.path_prefix@ == path_prefix(cli.path_prefix@),
        r.auto_create_space == cli.auto_create_space,
        r.auto_create_tier == cli.auto_create_tier,
        text::views(r.allowed_hosts@) == text::values(text::split(cli.allowed_hosts@, ',')),
        text::views(r.allowed_origins@) == text::values(text::split(cli.allowed_origins@, ',')),
        r.stateful_mode,
        !r.json_response,
        r.sse_keep_alive_secs == Some(15u64),
{
    McpHttpServerConfig {
        path_prefix: normalize_http_path_prefix(cli.path_prefix.as_str()),
        auto_create_space: cli.auto_create_space,
        auto_create_tier: cli.auto_create_tier,
        allowed_hosts: split_csv_values(cli.allowed_hosts.as_str()),
        allowed_origins: split_csv_values(cli.allowed_origins.as_str()),
        stateful_mode: true,
        json_response: false,
        sse_keep_alive_secs: Some(15),
    }
}

/// What the command line says about the model.
#[derive(Debug)]
pub struct ModelSettings {
    pub family: String,
    pub name: String,
    pub api_key: String,
    pub api_base: String,
    pub context_window: usize,
    pub max_output: usize,
}

/// How the model is called.
#[derive(Debug)]
pub struct ModelConfig {
    pub family: String,
    pub model: String,
    pub api_key: String,
    pub api_base: String,
    pub context_window: usize,
    pub max_output: usize,
    pub disabled: bool,
    pub bearer_auth: bool,
    pub stream: bool,
}

/// The model's configuration; without a key the model is switched off.
pub fn model_config_from_cli(cli: &ModelSettings) -> (r: ModelConfig)
    ensures
        r == (ModelConfig {
            family: cli.family,
            model: cli.name,
            api_key: cli.api_key,
            api_base: cli.api_base,
            context_window: cli.context_window,
            max_output: cli.max_output,
            disabled: cli.api_key@.len() == 0,
            bearer_auth: false,
            stream: false,
        }),
{
    ModelConfig {
        family: cli.family.clone(),
        model: cli.name.clone(),
        api_key: cli.api_key.clone(),
        api_base: cli.api_base.clone(),
        context_window: cli.context_window,
        max_output: cli.max_output,
        disabled: cli.api_key.as_str().is_empty(),
        bearer_auth: false,
        stream: false,
    }
}

/// The model that judges independently of the one that is judged; none without a
/// key of its own.
pub fn judge_model(
    api_key: Option<String>,
    family: Option<String>,
    name: Option<String>,
    api_base: Option<String>,
) -> (r: Option<ModelSettings>)
    ensures
        match r {
            Some(judge) => {
                &&& api_key matches Some(key) && key@.len() > 0 && judge.api_key@ == key@
                &&& judge.family@ == match family {
                    Some(f) => f@,
                    None => "openai"@,
                }
                &&& judge.name@ == match name {
                    Some(n) => n@,
                    None => Seq::empty(),
                }
                &&& judge.api_base@ == match api_base {
                    Some(b) => b@,
                    None => Seq::empty(),
                }
                &&& judge.context_window == 0
                &&& judge.max_output == 0
            },
            None => !(api_key matches Some(key) && key@.len() > 0),
        },
{
    let key = match auth_token(api_key) {
        Some(key) => key,
        None => return None,
    };
    let family = match family {
        Some(f) => f,
        None => "openai".to_owned(),
    };
    let name = match name {
        Some(n) => n,
        None => String::new(),
    };
    let api_base = match api_base {
        Some(b) => b,
        None => String::new(),
    };
    Some(
        ModelSettings { family, name, api_key: key, api_base, context_window: 0, max_output: 0 },
    )
}

/// The most bytes of a runtime configuration.
pub const MAX_CONFIG_BYTES: u64 = 1_048_576;

/// Whether a runtime configuration may be read.
pub fn config_fits(bytes: u64) -> (r: bool)
    ensures
        r == (bytes <= MAX_CONFIG_BYTES),
{
    bytes <= MAX_CONFIG_BYTES
}

/// How many requests run at once: a limit of none would turn every request away.
pub fn permits(max_in_flight: usize) -> (r: usize)
    ensures
        r == if max_in_flight == 0 {
            1
        } else {
            max_in_flight
        },
{
    if max_in_flight == 0 {
        1
    } else {
        max_in_flight
    }
}

/// How a task of the service ended.
#[derive(Debug)]
pub enum TaskEnd {
    Done,
    /// It returned an error.
    Failed(String),
    /// It panicked or was aborted.
    Aborted(String),
}

/// Why the service ended, where it did not end on request.
pub open spec fn service_failure(server: TaskEnd, spaces: TaskEnd) -> Option<Seq<char>> {
    match server {
        TaskEnd::Aborted(e) => Some("server task failed: "@ + e@),
        TaskEnd::Failed(e) => Some("server exited with error: "@ + e@),
        TaskEnd::Done => match spaces {
            TaskEnd::Done => None,
            TaskEnd::Failed(e) => Some("space background task failed: "@ + e@),
            TaskEnd::Aborted(e) => Some("space background task failed: "@ + e@),
        },
    }
}

/// What the service ends with: a failure of either task is a failure of the
/// service, the server's first.
pub fn service_result(server: TaskEnd, spaces: TaskEnd) -> (r: Result<(), String>)
    ensures
        match r {
            Ok(()) => service_failure(server, spaces) is None,
            Err(e) => service_failure(server, spaces) == Some(e@),
        },
{
    let (prefix, error) = match server {
        TaskEnd::Aborted(e) => ("server task failed: ", e),
        TaskEnd::Failed(e) => ("server exited with error: ", e),
        TaskEnd::Done => match spaces {
            TaskEnd::Done => return Ok(()),
            TaskEnd::Failed(e) => ("space background task failed: ", e),
            TaskEnd::Aborted(e) => ("space background task failed: ", e),
        },
    };
    let mut out = prefix.to_owned();
    out.append(error.as_str());
    Err(out)
}

// ---------------------------------------------------------------------------
// Origins
// ---------------------------------------------------------------------------

/// A character that a header value may hold.
pub open spec fn is_header_char(c: char) -> bool {
    c == '\t' || (c as u32 >= 32 && c as u32 != 127)
}

pub open spec fn is_header_value(s: Seq<char>) -> bool {
    forall|i: int| 0 <= i < s.len() ==> is_header_char(#[trigger] s[i])
}

/// `http::HeaderValue::from_str` accepts exactly the texts without control
/// characters, the tab excepted.
#[verifier::external_body]
fn header_value_valid(value: &str) -> (r: bool)
    ensures
        r == is_header_value(value@),
{
    http::HeaderValue::from_str(value).is_ok()
}

/// Which origins may call from a browser.
#[derive(Debug)]
pub enum Cors {
    Closed,
    /// Every origin, with credentials.
    Open,
    Origins(Vec<String>),
}

/// Why a list of origins was refused.
#[derive(Debug)]
pub enum CorsError {
    InvalidOrigin(String),
    NoOrigin,
}

/// The first origin that is no header value.
pub open spec fn is_first_invalid(origins: Seq<Seq<char>>, origin: Seq<char>) -> bool {
    exists|i: int|
        0 <= i < origins.len() && #[trigger] origins[i] == origin && !is_header_value(origin)
            && forall|k: int| 0 <= k < i ==> is_header_value(#[trigger] origins[k])
}

/// Reads the origins that may call; a single bad one is refused rather than
/// dropped.
pub fn plan_cors(cors_origins: &str) -> (r: Result<Cors, CorsError>)
    ensures
        ({
            let blank = text::trimmed(cors_origins@);
            let origins = text::values(text::split(cors_origins@, ','));
            match r {
                Ok(Cors::Closed) => blank.len() == 0,
                Ok(Cors::Open) => blank == "*"@,
                Ok(Cors::Origins(list)) => blank.len() > 0 && blank != "*"@ && text::views(list@)
                    == origins && origins.len() > 0 && forall|i: int|
                    0 <= i < origins.len() ==> is_header_value(#[trigger] origins[i]),
                Err(CorsError::InvalidOrigin(origin)) => blank.len() > 0 && blank != "*"@
                    && is_first_invalid(origins, origin@),
                Err(CorsError::NoOrigin) => blank.len() > 0 && blank != "*"@ && origins.len()
                    == 0,
            }
        }),
{
    let blank = text::trim(cors_origins);
    proof {
        reveal_strlit("*");
    }
    if blank.is_empty() {
        return Ok(Cors::Closed);
    }
    if text::same(blank, "*") {
        return Ok(Cors::Open);
    }
    let list = split_csv_values(cors_origins);
    let ghost origins = text::values(text::split(cors_origins@, ','));
    let mut i: usize = 0;
    while i < list.len()
        invariant
            i <= list.len(),
            text::views(list@) == origins,
            origins == text::values(text::split(cors_origins@, ',')),
            blank@ == text::trimmed(cors_origins@),
            blank@.len() > 0,
            blank@ != "*"@,
            forall|k: int| 0 <= k < i ==> is_header_value(#[trigger] origins[k]),
        decreases list.len() - i,
    {
        assert(origins[i as int] == list@[i as int]@);
        if !header_value_valid(list[i].as_str()) {
            return Err(CorsError::InvalidOrigin(list[i].clone()));
        }
        i = i + 1;
    }
    if list.len() == 0 {
        assert(origins.len() == 0);
        return Err(CorsError::NoOrigin);
    }
    Ok(Cors::Origins(list))
}

// ---------------------------------------------------------------------------
// Managers
// ---------------------------------------------------------------------------

/// The canonical text of the principal that a text names, where it names one.
pub uninterp spec fn principal_of(text: Seq<char>) -> Option<Seq<char>>;

/// `candid::Principal::from_text`, and the canonical text of what it read; the
/// result is a function of the text.
#[verifier::external_body]
fn principal_text(id: &str) -> (r: Option<String>)
    ensures
        match r {
            Some(own) => principal_of(id@) == Some(own@),
            None => principal_of(id@) is None,
        },
{
    candid::Principal::from_text(id).ok().map(|p| p.to_text())
}

/// The identifier that names no principal.
#[derive(Debug)]
pub struct InvalidManager(pub String);

/// The managers in a list, each once and in the order of their texts. Blanks and
/// stray commas are tolerated; a malformed identifier is refused.
pub fn parse_managers(input: &str) -> (r: Result<Vec<String>, InvalidManager>)
    ensures
        ({
            let ids = text::values(text::split(input@, ','));
            match r {
                Ok(managers) => {
                    &&& forall|i: int| 0 <= i < ids.len() ==> principal_of(#[trigger] ids[i]) is Some
                    &&& text::is_sorted_set(text::views(managers@))
                    &&& forall|m: Seq<char>| #[trigger]
                        text::views(managers@).contains(m) <==> exists|i: int|
                            0 <= i < ids.len() && principal_of(#[trigger] ids[i]) == Some(m)
                },
                Err(e) => exists|i: int|
                    0 <= i < ids.len() && #[trigger] ids[i] == e.0@ && principal_of(e.0@) is None
                        && forall|k: int| 0 <= k < i ==> principal_of(#[trigger] ids[k]) is Some,
            }
        }),
{
    let list = split_csv_values(input);
    let ghost ids = text::values(text::split(input@, ','));
    let mut managers: Vec<String> = Vec::new();
    let mut i: usize = 0;
    while i < list.len()
        invariant
            i <= list.len(),
            text::views(list@) == ids,
            ids == text::values(text::split(input@, ',')),
            text::is_sorted_set(text::views(managers@)),
            forall|k: int| 0 <= k < i ==> principal_of(#[trigger] ids[k]) is Some,
            forall|m: Seq<char>| #[trigger]
                text::views(managers@).contains(m) <==> exists|k: int|
                    0 <= k < i && principal_of(#[trigger] ids[k]) == Some(m),
        decreases list.len() - i,
    {
        assert(ids[i as int] == list@[i as int]@);
        match principal_text(list[i].as_str()) {
            Some(own) => {
                let ghost before = text::views(managers@);
                let _new = text::insert_sorted(&mut managers, own.as_str());
                proof {
                    assert forall|m: Seq<char>| #[trigger] text::views(managers@).contains(m)
                        <==> exists|k: int|
                        0 <= k < i + 1 && principal_of(#[trigger] ids[k]) == Some(m) by {
                        if before.contains(m) {
                            let k = choose|k: int|
                                0 <= k < i && principal_of(#[trigger] ids[k]) == Some(m);
                            assert(0 <= k < i + 1);
                        }
                        if m == own@ {
                            assert(principal_of(ids[i as int]) == Some(m));
                        }
                        if exists|k: int|
                            0 <= k < i + 1 && principal_of(#[trigger] ids[k]) == Some(m) {
                            let k = choose|k: int|
                                0 <= k < i + 1 && principal_of(#[trigger] ids[k]) == Some(m);
                            if k < i {
                                assert(before.contains(m));
                            }
                        }
                    }
                }
            },
            None => return Err(InvalidManager(list[i].clone())),
        }
        i = i + 1;
    }
    Ok(managers)
}

/// A header's value holds no control characters but the tab.
pub proof fn headers_hold_no_control_characters(s: Seq<char>)
    ensures
        is_header_value(s) ==> forall|i: int|
            0 <= i < s.len() ==> #[trigger] s[i] != '\n' && s[i] != '\r' && s[i] != '\0',
        s.len() > 0 && (s[0] == '\n' || s[0] == '\r') ==> !is_header_value(s),
        is_header_char('\t') && is_header_char(' ') && is_header_char('~'),
{
    if is_header_value(s) {
        assert forall|i: int| 0 <= i < s.len() implies #[trigger] s[i] != '\n' && s[i] != '\r'
            && s[i] != '\0' by {
            assert(is_header_char(s[i]));
        }
    }
}

/// A service fails where its server does, and says so, or else where its background work
/// does.
pub proof fn services_fail_with_their_tasks(server: TaskEnd, spaces: TaskEnd)
    ensures
        service_failure(server, spaces) is None <==> server is Done && spaces is Done,
        server matches TaskEnd::Aborted(e) ==> service_failure(server, spaces) == Some(
            "server task failed: "@ + e@,
        ),
        server matches TaskEnd::Failed(e) ==> service_failure(server, spaces) == Some(
            "server exited with error: "@ + e@,
        ),
        server is Done ==> (spaces matches TaskEnd::Failed(e) ==> service_failure(server, spaces)
            == Some("space background task failed: "@ + e@)),
        server is Done ==> (spaces matches TaskEnd::Aborted(e) ==> service_failure(server, spaces)
            == Some("space background task failed: "@ + e@)),
{
}

/// A path that is rooted keeps what it names; one that names nothing is the default.
pub proof fn paths_keep_what_they_name(prefix: Seq<char>)
    ensures
        ({
            let bare = text::trimmed_end_of(text::trimmed(prefix), '/');
            &&& bare.len() == 0 ==> path_prefix(prefix) == "/mcp"@
            &&& bare.len() > 0 && bare[0] == '/' ==> path_prefix(prefix) == bare
            &&& bare.len() > 0 && bare[0] != '/' ==> path_prefix(prefix) == "/"@ + bare
        }),
{
}

} // verus!
