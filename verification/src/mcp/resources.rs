//! The resources a tooling server serves, and how a resource address is
//! read. An address names what is asked for; fetching it is the caller's.

use crate::text::{concat2, cut, same_text, split, split_on, split_once, strip_prefix, stripped};
use vstd::prelude::*;
use vstd::string::*;

verus! {

/// Why a resource address is refused.
#[derive(Debug, PartialEq, Eq)]
pub enum ResourceError {
    /// The address is of a known kind but lacks a part.
    InvalidParams(String),
    /// The address names nothing that is served.
    ResourceNotFound(String),
    /// Fetching failed, with the reason.
    InternalError(String),
}

/// The model of [`ResourceError`].
pub enum ResourceErrorView {
    InvalidParams(Seq<char>),
    ResourceNotFound(Seq<char>),
    InternalError(Seq<char>),
}

impl View for ResourceError {
    type V = ResourceErrorView;

    open spec fn view(&self) -> ResourceErrorView {
        match self {
            ResourceError::InvalidParams(d) => ResourceErrorView::InvalidParams(d@),
            ResourceError::ResourceNotFound(d) => ResourceErrorView::ResourceNotFound(d@),
            ResourceError::InternalError(d) => ResourceErrorView::InternalError(d@),
        }
    }
}

/// One kind of resource: the shape of its address, its name, what it is, and
/// the media type it is served as.
#[derive(Debug, PartialEq, Eq)]
pub struct ResourceTemplate {
    pub uri_template: String,
    pub name: String,
    pub description: Option<String>,
    pub mime_type: Option<String>,
}

/// The model of [`ResourceTemplate`].
pub struct ResourceTemplateView {
    pub uri_template: Seq<char>,
    pub name: Seq<char>,
    pub description: Option<Seq<char>>,
    pub mime_type: Option<Seq<char>>,
}

impl View for ResourceTemplate {
    type V = ResourceTemplateView;

    open spec fn view(&self) -> ResourceTemplateView {
        ResourceTemplateView {
            uri_template: self.uri_template@,
            name: self.name@,
            description: match self.description {
                Some(d) => Some(d@),
                None => None,
            },
            mime_type: match self.mime_type {
                Some(m) => Some(m@),
                None => None,
            },
        }
    }
}

impl DeepView for ResourceTemplate {
    type V = ResourceTemplateView;

    open spec fn deep_view(&self) -> ResourceTemplateView {
        self@
    }
}

/// The template with these four texts.
pub open spec fn template_of(
    uri_template: Seq<char>,
    name: Seq<char>,
    description: Seq<char>,
    mime_type: Seq<char>,
) -> ResourceTemplateView {
    ResourceTemplateView {
        uri_template,
        name,
        description: Some(description),
        mime_type: Some(mime_type),
    }
}

/// The template with these four texts.
fn template(uri_template: &str, name: &str, description: &str, mime_type: &str) -> (t:
    ResourceTemplate)
    ensures
        t@ == template_of(uri_template@, name@, description@, mime_type@),
{
    ResourceTemplate {
        uri_template: uri_template.to_owned(),
        name: name.to_owned(),
        description: Some(description.to_owned()),
        mime_type: Some(mime_type.to_owned()),
    }
}

/// The kinds of documentation served.
pub open spec fn docs_templates() -> Seq<ResourceTemplateView> {
    seq![
        template_of("zks://docs/readme"@, "README Documentation"@, "Main project documentation"@, "text/markdown"@),
        template_of("zks://docs/crates/{crate_name}"@, "Crate Documentation"@, "Documentation for specific ZKS crate"@, "text/markdown"@),
        template_of("zks://docs/api/{crate}/{module}"@, "API Documentation"@, "API documentation for ZKS modules"@, "text/markdown"@),
        template_of("zks://docs/security"@, "Security Documentation"@, "ZKS Protocol security documentation"@, "text/markdown"@),
        template_of("zks://docs/architecture"@, "Architecture Documentation"@, "ZKS Protocol architecture overview"@, "text/markdown"@),
        template_of("zks://docs/protocols/{protocol}"@, "Protocol Documentation"@, "ZKS Protocol specifications"@, "text/markdown"@),
    ]
}

/// The kinds of source served.
pub open spec fn code_templates() -> Seq<ResourceTemplateView> {
    seq![
        template_of("zks://code/crate/{name}"@, "Crate Source"@, "Crate source listing"@, "application/json"@),
        template_of("zks://code/file/{path}"@, "File Contents"@, "File source code"@, "text/x-rust"@),
        template_of("zks://code/function/{crate}/{path}"@, "Function Definition"@, "Function source code"@, "text/x-rust"@),
        template_of("zks://code/struct/{crate}/{name}"@, "Struct Definition"@, "Struct definition"@, "text/x-rust"@),
        template_of("zks://code/impl/{crate}/{struct}"@, "Implementation Block"@, "Implementation block"@, "text/x-rust"@),
    ]
}

/// The examples served.
pub open spec fn examples_templates() -> Seq<ResourceTemplateView> {
    seq![
        template_of("zks://examples/basic_connection"@, "Basic Connection Example"@, "Basic ZKS connection example"@, "text/x-rust"@),
        template_of("zks://examples/anonymous_connection"@, "Anonymous Connection Example"@, "Anonymous routing example"@, "text/x-rust"@),
        template_of("zks://examples/file_transfer"@, "File Transfer Example"@, "Secure file transfer example"@, "text/x-rust"@),
        template_of("zks://examples/keypair_generation"@, "Key Generation Example"@, "Post-quantum key generation example"@, "text/x-rust"@),
        template_of("zks://examples/handshake"@, "Handshake Example"@, "Complete handshake example"@, "text/x-rust"@),
    ]
}

/// The status reports served.
pub open spec fn status_templates() -> Seq<ResourceTemplateView> {
    seq![
        template_of("zks://status/build"@, "Build Status"@, "Current build status"@, "application/json"@),
        template_of("zks://status/tests"@, "Test Results"@, "Latest test results"@, "application/json"@),
        template_of("zks://status/coverage"@, "Code Coverage"@, "Code coverage metrics"@, "application/json"@),
        template_of("zks://status/deps"@, "Dependency Audit"@, "Dependency security audit"@, "application/json"@),
        template_of("zks://status/versions"@, "Crate Versions"@, "Version information for all crates"@, "application/json"@),
    ]
}

/// What an address below `zks://code/` asks for.
#[derive(Debug, PartialEq, Eq)]
pub enum CodeRequest {
    /// The listing of a crate.
    CrateSource { name: String },
    /// A file, by its path under the root.
    File { path: String },
    /// A function, by crate and path.
    Function { crate_name: String, path: String },
    /// A struct, by crate and name.
    Struct { crate_name: String, name: String },
    /// The `impl` block of a struct, by crate and name.
    Impl { crate_name: String, name: String },
}

/// The model of [`CodeRequest`].
pub enum CodeRequestView {
    CrateSource { name: Seq<char> },
    File { path: Seq<char> },
    Function { crate_name: Seq<char>, path: Seq<char> },
    Struct { crate_name: Seq<char>, name: Seq<char> },
    Impl { crate_name: Seq<char>, name: Seq<char> },
}

impl View for CodeRequest {
    type V = CodeRequestView;

    open spec fn view(&self) -> CodeRequestView {
        match self {
            CodeRequest::CrateSource { name } => CodeRequestView::CrateSource { name: name@ },
            CodeRequest::File { path } => CodeRequestView::File { path: path@ },
            CodeRequest::Function { crate_name, path } => CodeRequestView::Function {
                crate_name: crate_name@,
                path: path@,
            },
            CodeRequest::Struct { crate_name, name } => CodeRequestView::Struct {
                crate_name: crate_name@,
                name: name@,
            },
            CodeRequest::Impl { crate_name, name } => CodeRequestView::Impl {
                crate_name: crate_name@,
                name: name@,
            },
        }
    }
}

/// What a source address asks for. The kind is read from the beginning of
/// the address; a function, struct or `impl` address must go on with a crate,
/// a slash and a name, where the name may hold further slashes.
pub open spec fn code_request(uri: Seq<char>) -> Result<CodeRequestView, ResourceErrorView> {
    if stripped(uri, "zks://code/crate/"@) is Some {
        Ok(CodeRequestView::CrateSource { name: stripped(uri, "zks://code/crate/"@)->0 })
    } else if stripped(uri, "zks://code/file/"@) is Some {
        Ok(CodeRequestView::File { path: stripped(uri, "zks://code/file/"@)->0 })
    } else if stripped(uri, "zks://code/function/"@) is Some {
        match cut(stripped(uri, "zks://code/function/"@)->0, '/') {
            Some(parts) => Ok(CodeRequestView::Function { crate_name: parts.0, path: parts.1 }),
            None => Err(ResourceErrorView::InvalidParams("Invalid function path"@)),
        }
    } else if stripped(uri, "zks://code/struct/"@) is Some {
        match cut(stripped(uri, "zks://code/struct/"@)->0, '/') {
            Some(parts) => Ok(CodeRequestView::Struct { crate_name: parts.0, name: parts.1 }),
            None => Err(ResourceErrorView::InvalidParams("Invalid struct path"@)),
        }
    } else if stripped(uri, "zks://code/impl/"@) is Some {
        match cut(stripped(uri, "zks://code/impl/"@)->0, '/') {
            Some(parts) => Ok(CodeRequestView::Impl { crate_name: parts.0, name: parts.1 }),
            None => Err(ResourceErrorView::InvalidParams("Invalid impl path"@)),
        }
    } else {
        Err(ResourceErrorView::ResourceNotFound("Unknown resource URI: "@ + uri))
    }
}

/// Source served from a checkout.
#[derive(Debug, PartialEq, Eq)]
pub struct CodeResources {
    zks_protocol_root: String,
}

impl CodeResources {
    /// The root of the checkout, as text.
    pub closed spec fn root_view(&self) -> Seq<char> {
        self.zks_protocol_root@
    }

    /// Source served from the checkout at `zks_protocol_root`.
    pub fn new(zks_protocol_root: String) -> (r: CodeResources)
        ensures
            r.root_view() == zks_protocol_root@,
    {
        CodeResources { zks_protocol_root }
    }

    /// The root of the checkout.
    pub fn root(&self) -> (r: &str)
        ensures
            r@ == self.root_view(),
    {
        self.zks_protocol_root.as_str()
    }

    /// The kinds of source served.
    pub fn resources(&self) -> (r: Vec<ResourceTemplate>)
        ensures
            r.deep_view() == code_templates(),
    {
        let mut r: Vec<ResourceTemplate> = Vec::new();
        r.push(template("zks://code/crate/{name}", "Crate Source", "Crate source listing", "application/json"));
        r.push(template("zks://code/file/{path}", "File Contents", "File source code", "text/x-rust"));
        r.push(template("zks://code/function/{crate}/{path}", "Function Definition", "Function source code", "text/x-rust"));
        r.push(template("zks://code/struct/{crate}/{name}", "Struct Definition", "Struct definition", "text/x-rust"));
        r.push(template("zks://code/impl/{crate}/{struct}", "Implementation Block", "Implementation block", "text/x-rust"));
        assert(r.deep_view() =~= code_templates());
        r
    }

    /// What the address `uri` asks for.
    pub fn request(&self, uri: &str) -> (r: Result<CodeRequest, ResourceError>)
        ensures
            match code_request(uri@) {
                Ok(wanted) => r matches Ok(x) && x@ == wanted,
                Err(e) => r matches Err(x) && x@ == e,
            },
    {
        if let Some(name) = strip_prefix(uri, "zks://code/crate/") {
            return Ok(CodeRequest::CrateSource { name });
        }
        if let Some(path) = strip_prefix(uri, "zks://code/file/") {
            return Ok(CodeRequest::File { path });
        }
        if let Some(rest) = strip_prefix(uri, "zks://code/function/") {
            return match split_once(rest.as_str(), '/') {
                Some(parts) => Ok(CodeRequest::Function { crate_name: parts.0, path: parts.1 }),
                None => Err(ResourceError::InvalidParams("Invalid function path".to_owned())),
            };
        }
        if let Some(rest) = strip_prefix(uri, "zks://code/struct/") {
            return match split_once(rest.as_str(), '/') {
                Some(parts) => Ok(CodeRequest::Struct { crate_name: parts.0, name: parts.1 }),
                None => Err(ResourceError::InvalidParams("Invalid struct path".to_owned())),
            };
        }
        if let Some(rest) = strip_prefix(uri, "zks://code/impl/") {
            return match split_once(rest.as_str(), '/') {
                Some(parts) => Ok(CodeRequest::Impl { crate_name: parts.0, name: parts.1 }),
                None => Err(ResourceError::InvalidParams("Invalid impl path".to_owned())),
            };
        }
        Err(ResourceError::ResourceNotFound(concat2("Unknown resource URI: ", uri)))
    }

    /// The source served for the function at `function_path`: the whole of
    /// `content`, the file that holds it.
    pub fn extract_function(&self, content: &str, function_path: &str) -> (r: Result<
        String,
        ResourceError,
    >)
        ensures
            r matches Ok(text) && text@ == content@,
    {
        Ok(content.to_owned())
    }
}

/// A protocol with a specification of its own.
#[derive(Debug, Clone, Copy, PartialEq, Eq, Structural)]
pub enum Protocol {
    Zk,
    Zks,
}

/// What an address below `zks://docs/` asks for.
#[derive(Debug, PartialEq, Eq)]
pub enum DocRequest {
    Readme,
    CrateDocs { crate_name: String },
    Api { crate_name: String, module: String },
    Security,
    Architecture,
    ProtocolSpec(Protocol),
}

/// The model of [`DocRequest`].
pub enum DocRequestView {
    Readme,
    CrateDocs { crate_name: Seq<char> },
    Api { crate_name: Seq<char>, module: Seq<char> },
    Security,
    Architecture,
    ProtocolSpec(Protocol),
}

impl View for DocRequest {
    type V = DocRequestView;

    open spec fn view(&self) -> DocRequestView {
        match self {
            DocRequest::Readme => DocRequestView::Readme,
            DocRequest::CrateDocs { crate_name } => DocRequestView::CrateDocs {
                crate_name: crate_name@,
            },
            DocRequest::Api { crate_name, module } => DocRequestView::Api {
                crate_name: crate_name@,
                module: module@,
            },
            DocRequest::Security => DocRequestView::Security,
            DocRequest::Architecture => DocRequestView::Architecture,
            DocRequest::ProtocolSpec(p) => DocRequestView::ProtocolSpec(*p),
        }
    }
}

/// The part of a documentation address that names the document: the address
/// without `zks://docs/`, or as it stands without that beginning.
pub open spec fn doc_path(uri: Seq<char>) -> Seq<char> {
    match stripped(uri, "zks://docs/"@) {
        Some(rest) => rest,
        None => uri,
    }
}

/// What a documentation address asks for, read from the pieces of its path
/// between slashes.
pub open spec fn doc_request(uri: Seq<char>) -> Result<DocRequestView, ResourceErrorView> {
    let parts = split(doc_path(uri), '/');
    if parts.len() == 1 && parts[0] == "readme"@ {
        Ok(DocRequestView::Readme)
    } else if parts.len() == 2 && parts[0] == "crates"@ {
        Ok(DocRequestView::CrateDocs { crate_name: parts[1] })
    } else if parts.len() == 3 && parts[0] == "api"@ {
        Ok(DocRequestView::Api { crate_name: parts[1], module: parts[2] })
    } else if parts.len() == 1 && parts[0] == "security"@ {
        Ok(DocRequestView::Security)
    } else if parts.len() == 1 && parts[0] == "architecture"@ {
        Ok(DocRequestView::Architecture)
    } else if parts.len() == 2 && parts[0] == "protocols"@ {
        if parts[1] == "zk"@ {
            Ok(DocRequestView::ProtocolSpec(Protocol::Zk))
        } else if parts[1] == "zks"@ {
            Ok(DocRequestView::ProtocolSpec(Protocol::Zks))
        } else {
            Err(ResourceErrorView::ResourceNotFound("Unknown protocol: "@ + parts[1]))
        }
    } else {
        Err(ResourceErrorView::ResourceNotFound("Unknown documentation path: "@ + uri))
    }
}

/// Documentation served from a checkout.
#[derive(Debug, PartialEq, Eq)]
pub struct DocsResource {
    zks_protocol_root: String,
}

impl DocsResource {
    /// The root of the checkout, as text.
    pub closed spec fn root_view(&self) -> Seq<char> {
        self.zks_protocol_root@
    }

    /// Documentation served from the checkout at `zks_protocol_root`.
    pub fn new(zks_protocol_root: String) -> (r: DocsResource)
        ensures
            r.root_view() == zks_protocol_root@,
    {
        DocsResource { zks_protocol_root }
    }

    /// The root of the checkout.
    pub fn root(&self) -> (r: &str)
        ensures
            r@ == self.root_view(),
    {
        self.zks_protocol_root.as_str()
    }

    /// The kinds of documentation served.
    pub fn resources(&self) -> (r: Vec<ResourceTemplate>)
        ensures
            r.deep_view() == docs_templates(),
    {
        let mut r: Vec<ResourceTemplate> = Vec::new();
        r.push(template("zks://docs/readme", "README Documentation", "Main project documentation", "text/markdown"));
        r.push(template("zks://docs/crates/{crate_name}", "Crate Documentation", "Documentation for specific ZKS crate", "text/markdown"));
        r.push(template("zks://docs/api/{crate}/{module}", "API Documentation", "API documentation for ZKS modules", "text/markdown"));
        r.push(template("zks://docs/security", "Security Documentation", "ZKS Protocol security documentation", "text/markdown"));
        r.push(template("zks://docs/architecture", "Architecture Documentation", "ZKS Protocol architecture overview", "text/markdown"));
        r.push(template("zks://docs/protocols/{protocol}", "Protocol Documentation", "ZKS Protocol specifications", "text/markdown"));
        assert(r.deep_view() =~= docs_templates());
        r
    }

    /// What the address `uri` asks for.
    pub fn request(&self, uri: &str) -> (r: Result<DocRequest, ResourceError>)
        ensures
            match doc_request(uri@) {
                Ok(wanted) => r matches Ok(x) && x@ == wanted,
                Err(e) => r matches Err(x) && x@ == e,
            },
    {
        let path = match strip_prefix(uri, "zks://docs/") {
            Some(rest) => rest,
            None => uri.to_owned(),
        };
        let mut parts = split_on(path.as_str(), '/');
        let ghost pieces = parts.deep_view();
        let n = parts.len();
        if n == 1 && same_text(parts[0].as_str(), "readme") {
            Ok(DocRequest::Readme)
        } else if n == 2 && same_text(parts[0].as_str(), "crates") {
            let crate_name = parts.pop().unwrap();
            Ok(DocRequest::CrateDocs { crate_name })
        } else if n == 3 && same_text(parts[0].as_str(), "api") {
            let module = parts.pop().unwrap();
            let crate_name = parts.pop().unwrap();
            Ok(DocRequest::Api { crate_name, module })
        } else if n == 1 && same_text(parts[0].as_str(), "security") {
            Ok(DocRequest::Security)
        } else if n == 1 && same_text(parts[0].as_str(), "architecture") {
            Ok(DocRequest::Architecture)
        } else if n == 2 && same_text(parts[0].as_str(), "protocols") {
            if same_text(parts[1].as_str(), "zk") {
                Ok(DocRequest::ProtocolSpec(Protocol::Zk))
            } else if same_text(parts[1].as_str(), "zks") {
                Ok(DocRequest::ProtocolSpec(Protocol::Zks))
            } else {
                Err(
                    ResourceError::ResourceNotFound(
                        concat2("Unknown protocol: ", parts[1].as_str()),
                    ),
                )
            }
        } else {
            Err(ResourceError::ResourceNotFound(concat2("Unknown documentation path: ", uri)))
        }
    }

    /// The path under which the page at `html_path` is served: the page
    /// itself, as it stands.
    pub fn convert_html_to_markdown(&self, html_path: &str) -> (r: Result<String, ResourceError>)
        ensures
            r matches Ok(path) && path@ == html_path@,
    {
        Ok(html_path.to_owned())
    }
}

/// An example that is served.
#[derive(Debug, Clone, Copy, PartialEq, Eq, Structural)]
pub enum Example {
    BasicConnection,
    AnonymousConnection,
    FileTransfer,
    KeypairGeneration,
    Handshake,
}

/// The example that an address names.
pub open spec fn example_request(uri: Seq<char>) -> Result<Example, ResourceErrorView> {
    if uri == "zks://examples/basic_connection"@ {
        Ok(Example::BasicConnection)
    } else if uri == "zks://examples/anonymous_connection"@ {
        Ok(Example::AnonymousConnection)
    } else if uri == "zks://examples/file_transfer"@ {
        Ok(Example::FileTransfer)
    } else if uri == "zks://examples/keypair_generation"@ {
        Ok(Example::KeypairGeneration)
    } else if uri == "zks://examples/handshake"@ {
        Ok(Example::Handshake)
    } else {
        Err(ResourceErrorView::ResourceNotFound("Unknown example resource: "@ + uri))
    }
}

/// Examples served for a checkout.
#[derive(Debug, PartialEq, Eq)]
pub struct ExamplesResource {
    zks_protocol_root: String,
}

impl ExamplesResource {
    /// The root of the checkout, as text.
    pub closed spec fn root_view(&self) -> Seq<char> {
        self.zks_protocol_root@
    }

    /// Examples served for the checkout at `zks_protocol_root`.
    pub fn new(zks_protocol_root: String) -> (r: ExamplesResource)
        ensures
            r.root_view() == zks_protocol_root@,
    {
        ExamplesResource { zks_protocol_root }
    }

    /// The root of the checkout.
    pub fn root(&self) -> (r: &str)
        ensures
            r@ == self.root_view(),
    {
        self.zks_protocol_root.as_str()
    }

    /// The examples served.
    pub fn resources(&self) -> (r: Vec<ResourceTemplate>)
        ensures
            r.deep_view() == examples_templates(),
    {
        let mut r: Vec<ResourceTemplate> = Vec::new();
        r.push(template("zks://examples/basic_connection", "Basic Connection Example", "Basic ZKS connection example", "text/x-rust"));
        r.push(template("zks://examples/anonymous_connection", "Anonymous Connection Example", "Anonymous routing example", "text/x-rust"));
        r.push(template("zks://examples/file_transfer", "File Transfer Example", "Secure file transfer example", "text/x-rust"));
        r.push(template("zks://examples/keypair_generation", "Key Generation Example", "Post-quantum key generation example", "text/x-rust"));
        r.push(template("zks://examples/handshake", "Handshake Example", "Complete handshake example", "text/x-rust"));
        assert(r.deep_view() =~= examples_templates());
        r
    }

    /// The example that the address `uri` names.
    pub fn request(&self, uri: &str) -> (r: Result<Example, ResourceError>)
        ensures
            match example_request(uri@) {
                Ok(wanted) => r == Ok::<Example, ResourceError>(wanted),
                Err(e) => r matches Err(x) && x@ == e,
            },
    {
        if same_text(uri, "zks://examples/basic_connection") {
            Ok(Example::BasicConnection)
        } else if same_text(uri, "zks://examples/anonymous_connection") {
            Ok(Example::AnonymousConnection)
        } else if same_text(uri, "zks://examples/file_transfer") {
            Ok(Example::FileTransfer)
        } else if same_text(uri, "zks://examples/keypair_generation") {
            Ok(Example::KeypairGeneration)
        } else if same_text(uri, "zks://examples/handshake") {
            Ok(Example::Handshake)
        } else {
            Err(ResourceError::ResourceNotFound(concat2("Unknown example resource: ", uri)))
        }
    }
}

/// A status report that is served.
#[derive(Debug, Clone, Copy, PartialEq, Eq, Structural)]
pub enum StatusReport {
    Build,
    Tests,
    Coverage,
    Deps,
    Versions,
}

/// The report that an address names.
pub open spec fn status_request(uri: Seq<char>) -> Result<StatusReport, ResourceErrorView> {
    if uri == "zks://status/build"@ {
        Ok(StatusReport::Build)
    } else if uri == "zks://status/tests"@ {
        Ok(StatusReport::Tests)
    } else if uri == "zks://status/coverage"@ {
        Ok(StatusReport::Coverage)
    } else if uri == "zks://status/deps"@ {
        Ok(StatusReport::Deps)
    } else if uri == "zks://status/versions"@ {
        Ok(StatusReport::Versions)
    } else {
        Err(ResourceErrorView::ResourceNotFound("Unknown status resource: "@ + uri))
    }
}

/// Status reports served for a checkout.
#[derive(Debug, PartialEq, Eq)]
pub struct StatusResource {
    zks_protocol_root: String,
}

impl StatusResource {
    /// The root of the checkout, as text.
    pub closed spec fn root_view(&self) -> Seq<char> {
        self.zks_protocol_root@
    }

    /// Status reports served for the checkout at `zks_protocol_root`.
    pub fn new(zks_protocol_root: String) -> (r: StatusResource)
        ensures
            r.root_view() == zks_protocol_root@,
    {
        StatusResource { zks_protocol_root }
    }

    /// The root of the checkout.
    pub fn root(&self) -> (r: &str)
        ensures
            r@ == self.root_view(),
    {
        self.zks_protocol_root.as_str()
    }

    /// The status reports served.
    pub fn resources(&self) -> (r: Vec<ResourceTemplate>)
        ensures
            r.deep_view() == status_templates(),
    {
        let mut r: Vec<ResourceTemplate> = Vec::new();
        r.push(template("zks://status/build", "Build Status", "Current build status", "application/json"));
        r.push(template("zks://status/tests", "Test Results", "Latest test results", "application/json"));
        r.push(template("zks://status/coverage", "Code Coverage", "Code coverage metrics", "application/json"));
        r.push(template("zks://status/deps", "Dependency Audit", "Dependency security audit", "application/json"));
        r.push(template("zks://status/versions", "Crate Versions", "Version information for all crates", "application/json"));
        assert(r.deep_view() =~= status_templates());
        r
    }

    /// The report that the address `uri` names.
    pub fn request(&self, uri: &str) -> (r: Result<StatusReport, ResourceError>)
        ensures
            match status_request(uri@) {
                Ok(wanted) => r == Ok::<StatusReport, ResourceError>(wanted),
                Err(e) => r matches Err(x) && x@ == e,
            },
    {
        if same_text(uri, "zks://status/build") {
            Ok(StatusReport::Build)
        } else if same_text(uri, "zks://status/tests") {
            Ok(StatusReport::Tests)
        } else if same_text(uri, "zks://status/coverage") {
            Ok(StatusReport::Coverage)
        } else if same_text(uri, "zks://status/deps") {
            Ok(StatusReport::Deps)
        } else if same_text(uri, "zks://status/versions") {
            Ok(StatusReport::Versions)
        } else {
            Err(ResourceError::ResourceNotFound(concat2("Unknown status resource: ", uri)))
        }
    }
}

/// The four families of resources.
#[derive(Debug, Clone, Copy, PartialEq, Eq, Structural)]
pub enum ResourceFamily {
    Docs,
    Code,
    Examples,
    Status,
}

/// The family that serves an address, by the beginning of the address.
pub open spec fn family_of(uri: Seq<char>) -> Result<ResourceFamily, ResourceErrorView> {
    if "zks://docs/"@.is_prefix_of(uri) {
        Ok(ResourceFamily::Docs)
    } else if "zks://code/"@.is_prefix_of(uri) {
        Ok(ResourceFamily::Code)
    } else if "zks://examples/"@.is_prefix_of(uri) {
        Ok(ResourceFamily::Examples)
    } else if "zks://status/"@.is_prefix_of(uri) {
        Ok(ResourceFamily::Status)
    } else {
        Err(ResourceErrorView::ResourceNotFound("Unknown resource URI: "@ + uri))
    }
}

/// All resources of a checkout, family by family.
#[derive(Debug, PartialEq, Eq)]
pub struct ZksResourceProvider {
    docs: DocsResource,
    code: CodeResources,
    examples: ExamplesResource,
    status: StatusResource,
}

impl ZksResourceProvider {
    /// Whether each family serves the checkout at `root`.
    pub closed spec fn serves(&self, root: Seq<char>) -> bool {
        &&& self.docs.root_view() == root
        &&& self.code.root_view() == root
        &&& self.examples.root_view() == root
        &&& self.status.root_view() == root
    }

    /// The resources of the checkout at `zks_protocol_root`.
    pub fn new(zks_protocol_root: String) -> (r: ZksResourceProvider)
        ensures
            r.serves(zks_protocol_root@),
    {
        ZksResourceProvider {
            docs: DocsResource::new(zks_protocol_root.clone()),
            code: CodeResources::new(zks_protocol_root.clone()),
            examples: ExamplesResource::new(zks_protocol_root.clone()),
            status: StatusResource::new(zks_protocol_root),
        }
    }

    /// The documentation family.
    pub fn docs(&self) -> (r: &DocsResource)
        ensures
            forall|root: Seq<char>| self.serves(root) ==> r.root_view() == root,
    {
        &self.docs
    }

    /// The source family.
    pub fn code(&self) -> (r: &CodeResources)
        ensures
            forall|root: Seq<char>| self.serves(root) ==> r.root_view() == root,
    {
        &self.code
    }

    /// The examples family.
    pub fn examples(&self) -> (r: &ExamplesResource)
        ensures
            forall|root: Seq<char>| self.serves(root) ==> r.root_view() == root,
    {
        &self.examples
    }

    /// The status family.
    pub fn status(&self) -> (r: &StatusResource)
        ensures
            forall|root: Seq<char>| self.serves(root) ==> r.root_view() == root,
    {
        &self.status
    }

    /// Every kind of resource served: documentation, source, examples and
    /// status, in this order.
    pub fn resources(&self) -> (r: Vec<ResourceTemplate>)
        ensures
            r.deep_view() == docs_templates() + code_templates() + examples_templates()
                + status_templates(),
    {
        let mut all = self.docs.resources();
        let mut code = self.code.resources();
        let mut examples = self.examples.resources();
        let mut status = self.status.resources();
        let ghost d = all.deep_view();
        let ghost c = code.deep_view();
        let ghost e = examples.deep_view();
        let ghost s = status.deep_view();
        all.append(&mut code);
        all.append(&mut examples);
        all.append(&mut status);
        assert(all.deep_view() =~= d + c + e + s);
        all
    }

    /// The family that serves the address `uri`.
    pub fn family(&self, uri: &str) -> (r: Result<ResourceFamily, ResourceError>)
        ensures
            match family_of(uri@) {
                Ok(f) => r == Ok::<ResourceFamily, ResourceError>(f),
                Err(e) => r matches Err(x) && x@ == e,
            },
    {
        if crate::text::starts_with(uri, "zks://docs/") {
            Ok(ResourceFamily::Docs)
        } else if crate::text::starts_with(uri, "zks://code/") {
            Ok(ResourceFamily::Code)
        } else if crate::text::starts_with(uri, "zks://examples/") {
            Ok(ResourceFamily::Examples)
        } else if crate::text::starts_with(uri, "zks://status/") {
            Ok(ResourceFamily::Status)
        } else {
            Err(ResourceError::ResourceNotFound(concat2("Unknown resource URI: ", uri)))
        }
    }
}

} // verus!
