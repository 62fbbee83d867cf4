//! Tools: locally executed capabilities with typed parameters and output.

pub mod find_files;
pub mod find_processes;
pub mod schema;

use crate::tool::find_files::FindFiles;
use crate::tool::find_processes::FindProcesses;
use crate::tool::schema::{ObjectSchema, SchemaView};
use vstd::prelude::*;
use vstd::string::*;

verus! {

/// Trusted: makes `serde_json::Error` known to the verifier as an opaque type.
#[verifier::external_type_specification]
#[verifier::external_body]
pub struct ExJsonError(serde_json::Error);

/// A tool for query processing.
pub trait Tool {
    /// A tool-specific parameters.
    type Params;

    /// A tool-specific output.
    type Output;

    /// The name that the tool is registered and called under.
    spec fn spec_name(&self) -> Seq<char>;

    /// A tool name.
    fn name(&self) -> (name: &'static str)
        ensures
            name@ == self.spec_name(),
    ;

    /// What the tool is for, if it says so.
    spec fn spec_description(&self) -> Option<Seq<char>>;

    /// An optional tool description.
    fn description(&self) -> (text: Option<&'static str>)
        ensures
            text matches Some(t) ==> self.spec_description() == Some(t@),
            text is None ==> self.spec_description() is None,
    ;
}

/// A tool error.
pub enum ToolError {
    /// The parameters contradict each other.
    InconsistentParams,
    /// Reading from the file system failed; holds the system's message.
    Io(String),
    /// The socket table could not be read; holds the message.
    Netstat2(String),
    /// A name pattern is not a valid regular expression.
    Regex(regex::Error),
    /// The parameters are not the JSON that the tool accepts.
    SerdeJson(serde_json::Error),
    /// A variable named in a path could not be expanded; holds the message.
    Shellexpend(String),
}

/// The text that describes why JSON could not be read or written, which is
/// what `to_string` makes of the error.
pub uninterp spec fn json_error_message(error: &serde_json::Error) -> Seq<char>;

/// The text that describes why JSON could not be read or written.
///
/// Trusted: calls `to_string` on a `serde_json::Error`, whose text depends
/// on the error alone.
#[verifier::external_body]
pub(crate) fn json_error_text(error: &serde_json::Error) -> (text: String)
    ensures
        text@ == json_error_message(error),
{
    error.to_string()
}

impl ToolError {
    /// The short code of each kind of error.
    pub open spec fn spec_code(&self) -> Seq<char> {
        match self {
            ToolError::InconsistentParams => "tool_inconsistent_params"@,
            ToolError::Io(_) => "tool_io"@,
            ToolError::Netstat2(_) => "tool_netstat2"@,
            ToolError::Regex(_) => "tool_regex"@,
            ToolError::SerdeJson(_) => "tool_serde_json"@,
            ToolError::Shellexpend(_) => "tool_shellexpend"@,
        }
    }

    /// A short code by which a program can tell the kinds of error apart.
    pub fn code(&self) -> (code: &'static str)
        ensures
            code@ == self.spec_code(),
    {
        match self {
            ToolError::InconsistentParams => "tool_inconsistent_params",
            ToolError::Io(_) => "tool_io",
            ToolError::Netstat2(_) => "tool_netstat2",
            ToolError::Regex(_) => "tool_regex",
            ToolError::SerdeJson(_) => "tool_serde_json",
            ToolError::Shellexpend(_) => "tool_shellexpend",
        }
    }

    /// The message of the error, followed by that of its cause if it has
    /// one.
    pub open spec fn spec_chain(&self) -> Seq<Seq<char>> {
        match self {
            ToolError::InconsistentParams => seq![self.spec_message()],
            ToolError::Io(cause) | ToolError::Netstat2(cause) | ToolError::Shellexpend(cause) => seq![
                self.spec_message(),
                cause@,
            ],
            ToolError::Regex(cause) => seq![
                self.spec_message(),
                crate::pattern::error_message(cause),
            ],
            ToolError::SerdeJson(cause) => seq![self.spec_message(), json_error_message(cause)],
        }
    }

    /// The message of the error, followed by that of its cause if it has
    /// one.
    pub fn chain(&self) -> (chain: Vec<String>)
        ensures
            crate::tool::schema::text_views(chain@) == self.spec_chain(),
    {
        let mut chain: Vec<String> = Vec::new();
        chain.push(self.message());
        match self {
            ToolError::InconsistentParams => {},
            ToolError::Io(cause) => chain.push(cause.clone()),
            ToolError::Netstat2(cause) => chain.push(cause.clone()),
            ToolError::Regex(cause) => chain.push(crate::pattern::error_text(cause)),
            ToolError::SerdeJson(cause) => chain.push(json_error_text(cause)),
            ToolError::Shellexpend(cause) => chain.push(cause.clone()),
        }
        proof {
            assert(crate::tool::schema::text_views(chain@) =~= self.spec_chain());
        }
        chain
    }

    /// The text that describes each kind of error.
    pub open spec fn spec_message(&self) -> Seq<char> {
        match self {
            ToolError::InconsistentParams => "inconsistent params"@,
            ToolError::Io(_) => "io error"@,
            ToolError::Netstat2(_) => "netstat2 error"@,
            ToolError::Regex(_) => "failed to parse regex"@,
            ToolError::SerdeJson(_) => "failed to (de)serialize json"@,
            ToolError::Shellexpend(_) => "failed to expand environment variables"@,
        }
    }

    /// A short description of the error, without its cause.
    pub fn message(&self) -> (text: String)
        ensures
            text@ == self.spec_message(),
    {
        match self {
            ToolError::InconsistentParams => String::from_str("inconsistent params"),
            ToolError::Io(_) => String::from_str("io error"),
            ToolError::Netstat2(_) => String::from_str("netstat2 error"),
            ToolError::Regex(_) => String::from_str("failed to parse regex"),
            ToolError::SerdeJson(_) => String::from_str("failed to (de)serialize json"),
            ToolError::Shellexpend(_) => String::from_str("failed to expand environment variables"),
        }
    }
}

/// The parameters of a call as the tool is to get them: what was read from
/// the JSON of the call, or the error that says that the JSON does not hold
/// what the tool accepts. The tool is not invoked on such JSON.
pub fn accepted_params<P>(parsed: Result<P, serde_json::Error>) -> (res: Result<P, ToolError>)
    ensures
        match parsed {
            Ok(params) => res == Ok::<P, ToolError>(params),
            Err(e) => res == Err::<P, ToolError>(ToolError::SerdeJson(e)),
        },
{
    match parsed {
        Ok(params) => Ok(params),
        Err(e) => Err(ToolError::SerdeJson(e)),
    }
}

/// An output item as it goes on to the caller: its JSON, or nothing where
/// the item could not be written as JSON. Such an item is left out, and the
/// items after it still come.
pub fn emitted_output(written: Result<String, serde_json::Error>) -> (item: Option<String>)
    ensures
        match written {
            Ok(json) => item == Some(json),
            Err(_) => item is None,
        },
{
    match written {
        Ok(json) => Some(json),
        Err(_) => None,
    }
}

/// A tool metadata.
#[derive(Debug)]
pub struct ToolMeta {
    pub name: String,
    pub description: Option<String>,
    pub params_schema: ObjectSchema,
    pub output_schema: ObjectSchema,
}

/// A tool metadata as the contracts see it.
pub ghost struct ToolMetaView {
    pub name: Seq<char>,
    pub description: Option<Seq<char>>,
    pub params_schema: SchemaView,
    pub output_schema: SchemaView,
}

impl ToolMetaView {
    /// The metadata without the parameters: name and description are left,
    /// and a schema that asks for nothing.
    pub open spec fn stripped(self) -> ToolMetaView {
        ToolMetaView {
            params_schema: SchemaView { properties: Seq::empty(), required: Seq::empty() },
            ..self
        }
    }
}

impl View for ToolMeta {
    type V = ToolMetaView;

    open spec fn view(&self) -> ToolMetaView {
        ToolMetaView {
            name: self.name@,
            description: self.description.deep_view(),
            params_schema: self.params_schema@,
            output_schema: self.output_schema@,
        }
    }
}

impl Clone for ToolMeta {
    fn clone(&self) -> (copy: Self)
        ensures
            copy@ == self@,
    {
        ToolMeta {
            name: self.name.clone(),
            description: match &self.description {
                Some(text) => Some(text.clone()),
                None => None,
            },
            params_schema: self.params_schema.clone(),
            output_schema: self.output_schema.clone(),
        }
    }
}

impl ToolMeta {
    /// Describes `tool`: its own name and description, with the schemas of
    /// its parameters and of its output.
    pub fn of<T: Tool>(tool: &T, params_schema: ObjectSchema, output_schema: ObjectSchema) -> (meta:
        ToolMeta)
        ensures
            meta@ == (ToolMetaView {
                name: tool.spec_name(),
                description: tool.spec_description(),
                params_schema: params_schema@,
                output_schema: output_schema@,
            }),
    {
        ToolMeta {
            name: String::from_str(tool.name()),
            description: match tool.description() {
                Some(text) => Some(String::from_str(text)),
                None => None,
            },
            params_schema,
            output_schema,
        }
    }

    /// Drops the parameters, for a request that is to pick a tool by name
    /// and description alone.
    pub fn strip_params(self) -> (bare: ToolMeta)
        ensures
            bare@ == self@.stripped(),
    {
        ToolMeta {
            name: self.name,
            description: self.description,
            params_schema: ObjectSchema::empty(),
            output_schema: self.output_schema,
        }
    }
}

/// The views of a list of metadata.
pub open spec fn meta_views(metas: Seq<ToolMeta>) -> Seq<ToolMetaView> {
    metas.map_values(|m: ToolMeta| m@)
}

/// The names of a list of metadata.
pub open spec fn names_of(metas: Seq<ToolMetaView>) -> Seq<Seq<char>> {
    metas.map_values(|m: ToolMetaView| m.name)
}

/// Whether no name occurs twice.
pub open spec fn names_distinct(names: Seq<Seq<char>>) -> bool {
    forall|i: int, j: int| 0 <= i < j < names.len() ==> names[i] != names[j]
}

/// Whether position `j` is the first at which a name comes that came before.
pub open spec fn first_repeat(names: Seq<Seq<char>>, j: int) -> bool {
    &&& 0 <= j < names.len()
    &&& names_distinct(names.take(j))
    &&& names.take(j).contains(names[j])
}

/// The names under which a list of entries is to be registered.
pub open spec fn entry_names<T>(entries: Seq<(ToolMeta, T)>) -> Seq<Seq<char>> {
    entries.map_values(|e: (ToolMeta, T)| e.0@.name)
}

/// Copies a list of metadata.
pub fn clone_metas(metas: &Vec<ToolMeta>) -> (copy: Vec<ToolMeta>)
    ensures
        meta_views(copy@) == meta_views(metas@),
{
    let mut copy: Vec<ToolMeta> = Vec::new();
    let mut i: usize = 0;
    while i < metas.len()
        invariant
            i <= metas.len(),
            meta_views(copy@) == meta_views(metas@.take(i as int)),
        decreases metas.len() - i,
    {
        let ghost before = copy@;
        copy.push(metas[i].clone());
        proof {
            assert(metas@.take(i + 1) =~= metas@.take(i as int).push(metas@[i as int]));
            assert(meta_views(copy@) =~= meta_views(before).push(metas@[i as int]@));
            assert(meta_views(metas@.take(i + 1)) =~= meta_views(metas@.take(i as int)).push(
                metas@[i as int]@,
            ));
        }
        i += 1;
    }
    proof {
        assert(metas@.take(i as int) =~= metas@);
    }
    copy
}

/// Of `metas`, those with the name `name`, in their order.
pub open spec fn named(metas: Seq<ToolMetaView>, name: Seq<char>) -> Seq<ToolMetaView> {
    metas.filter(|m: ToolMetaView| m.name == name)
}

/// `metas` without their parameters.
pub open spec fn stripped_all(metas: Seq<ToolMetaView>) -> Seq<ToolMetaView> {
    metas.map_values(|m: ToolMetaView| m.stripped())
}

/// Copies the metadata of the tools called `name`.
pub fn retain_named(metas: &Vec<ToolMeta>, name: &str) -> (kept: Vec<ToolMeta>)
    ensures
        meta_views(kept@) == named(meta_views(metas@), name@),
{
    let mut kept: Vec<ToolMeta> = Vec::new();
    let ghost given = meta_views(metas@);
    let ghost wanted = |m: ToolMetaView| m.name == name@;
    let mut i: usize = 0;
    proof {
        reveal(Seq::filter);
        assert(meta_views(kept@) =~= given.take(0).filter(wanted));
    }
    while i < metas.len()
        invariant
            i <= metas.len(),
            given == meta_views(metas@),
            wanted == |m: ToolMetaView| m.name == name@,
            meta_views(kept@) == given.take(i as int).filter(wanted),
        decreases metas.len() - i,
    {
        let ghost before = kept@;
        if crate::text::text_eq(metas[i].name.as_str(), name) {
            kept.push(metas[i].clone());
        }
        proof {
            reveal(Seq::filter);
            let n = i as int;
            assert(given.take(n + 1).drop_last() =~= given.take(n));
            assert(given.take(n + 1).last() == given[n]);
            if wanted(given[n]) {
                assert(meta_views(kept@) =~= meta_views(before).push(given[n]));
            }
        }
        i += 1;
    }
    proof {
        assert(given.take(i as int) =~= given);
    }
    kept
}

/// Copies the metadata of all the tools, without their parameters.
pub fn strip_all(metas: &Vec<ToolMeta>) -> (bare: Vec<ToolMeta>)
    ensures
        meta_views(bare@) == stripped_all(meta_views(metas@)),
{
    let mut bare: Vec<ToolMeta> = Vec::new();
    let ghost given = meta_views(metas@);
    let mut i: usize = 0;
    proof {
        assert(meta_views(bare@) =~= stripped_all(given.take(0)));
    }
    while i < metas.len()
        invariant
            i <= metas.len(),
            given == meta_views(metas@),
            meta_views(bare@) == stripped_all(given.take(i as int)),
        decreases metas.len() - i,
    {
        let ghost before = bare@;
        bare.push(metas[i].clone().strip_params());
        proof {
            let n = i as int;
            assert(given.take(n + 1) =~= given.take(n).push(given[n]));
            assert(meta_views(bare@) =~= meta_views(before).push(given[n].stripped()));
            assert(stripped_all(given.take(n + 1)) =~= stripped_all(given.take(n)).push(
                given[n].stripped(),
            ));
        }
        i += 1;
    }
    proof {
        assert(given.take(i as int) =~= given);
    }
    bare
}

/// Whether one of the tools is called `name`.
pub fn is_known(metas: &Vec<ToolMeta>, name: &str) -> (known: bool)
    ensures
        known == names_of(meta_views(metas@)).contains(name@),
{
    let ghost names = names_of(meta_views(metas@));
    let mut i: usize = 0;
    while i < metas.len()
        invariant
            i <= metas.len(),
            names == names_of(meta_views(metas@)),
            forall|k: int| 0 <= k < i ==> names[k] != name@,
        decreases metas.len() - i,
    {
        if crate::text::text_eq(metas[i].name.as_str(), name) {
            proof {
                assert(names[i as int] == name@);
            }
            return true;
        }
        i += 1;
    }
    false
}

/// A tool was to be registered under a name that is taken.
#[derive(Debug)]
pub struct DuplicateTool {
    pub name: String,
}

/// A mapping from tool names to their corresponding tool instances.
///
/// No two tools of a registry share a name. The tools are kept in a list, in
/// the order in which they were registered, and are found by comparing
/// names: of how a name hashes nothing is known that a hash map could be
/// held to.
pub struct DynTools<T> {
    metas: Vec<ToolMeta>,
    tools: Vec<T>,
}

/// A registry as the contracts see it: the metadata and the tool of each
/// entry, by position.
pub ghost struct DynToolsView<T> {
    pub metas: Seq<ToolMetaView>,
    pub tools: Seq<T>,
}

impl<T> View for DynTools<T> {
    type V = DynToolsView<T>;

    closed spec fn view(&self) -> DynToolsView<T> {
        DynToolsView { metas: meta_views(self.metas@), tools: self.tools@ }
    }
}

impl<T> DynTools<T> {
    #[verifier::type_invariant]
    spec fn well_formed(self) -> bool {
        &&& self.metas@.len() == self.tools@.len()
        &&& names_distinct(names_of(meta_views(self.metas@)))
    }

    /// Creates a registry without tools.
    pub fn new() -> (tools: Self)
        ensures
            tools@.metas.len() == 0,
            tools@.tools.len() == 0,
    {
        let tools = DynTools { metas: Vec::new(), tools: Vec::new() };
        proof {
            assert(names_of(meta_views(tools.metas@)) =~= Seq::empty());
            assert(meta_views(tools.metas@) =~= Seq::empty());
        }
        tools
    }

    /// The number of tools.
    pub fn len(&self) -> (n: usize)
        ensures
            n == self@.metas.len(),
            n == self@.tools.len(),
            names_distinct(names_of(self@.metas)),
    {
        proof {
            use_type_invariant(self);
        }
        self.metas.len()
    }

    /// The place of the tool called `name`, if there is one.
    pub fn position(&self, name: &str) -> (place: Option<usize>)
        ensures
            self@.metas.len() == self@.tools.len(),
            names_distinct(names_of(self@.metas)),
            match place {
                Some(i) => i < self@.metas.len() && self@.metas[i as int].name == name@,
                None => forall|i: int| 0 <= i < self@.metas.len() ==> self@.metas[i].name != name@,
            },
    {
        proof {
            use_type_invariant(self);
        }
        let mut i: usize = 0;
        while i < self.metas.len()
            invariant
                i <= self.metas@.len(),
                self.metas@.len() == self.tools@.len(),
                names_distinct(names_of(meta_views(self.metas@))),
                forall|k: int| 0 <= k < i ==> self.metas@[k].name@ != name@,
            decreases self.metas.len() - i,
        {
            if crate::text::text_eq(self.metas[i].name.as_str(), name) {
                return Some(i);
            }
            i += 1;
        }
        None
    }

    /// Registers `tool` under the name in `meta`, behind the tools that are
    /// there. A name that is taken is refused, and the registry stays as it
    /// was.
    pub fn insert(&mut self, meta: ToolMeta, tool: T) -> (res: Result<(), DuplicateTool>)
        ensures
            names_of(old(self)@.metas).contains(meta@.name) ==> {
                &&& res matches Err(e)
                &&& e.name@ == meta@.name
                &&& final(self)@ == old(self)@
            },
            !names_of(old(self)@.metas).contains(meta@.name) ==> {
                &&& res is Ok
                &&& final(self)@.metas == old(self)@.metas.push(meta@)
                &&& final(self)@.tools == old(self)@.tools.push(tool)
            },
    {
        proof {
            use_type_invariant(&*self);
        }
        let ghost names = names_of(meta_views(self.metas@));
        match self.position(meta.name.as_str()) {
            Some(i) => {
                proof {
                    assert(names[i as int] == meta@.name);
                }
                Err(DuplicateTool { name: meta.name })
            },
            None => {
                proof {
                    assert(!names.contains(meta@.name)) by {
                        if names.contains(meta@.name) {
                            let i = choose|i: int| 0 <= i < names.len() && names[i] == meta@.name;
                            assert(self@.metas[i].name == meta@.name);
                        }
                    }
                    let after = names_of(meta_views(self.metas@.push(meta)));
                    assert(after =~= names.push(meta@.name));
                    assert(meta_views(self.metas@.push(meta)) =~= meta_views(self.metas@).push(meta@));
                }
                let mut taken = DynTools { metas: Vec::new(), tools: Vec::new() };
                proof {
                    assert(names_of(meta_views(taken.metas@)) =~= Seq::empty());
                }
                core::mem::swap(self, &mut taken);
                let DynTools { mut metas, mut tools } = taken;
                metas.push(meta);
                tools.push(tool);
                *self = DynTools { metas, tools };
                Ok(())
            },
        }
    }

    /// Builds a registry from tools and their metadata, in the order given.
    ///
    /// Fails exactly where two of the entries share a name, and then names
    /// the first name that comes a second time.
    pub fn build(entries: Vec<(ToolMeta, T)>) -> (res: Result<DynTools<T>, DuplicateTool>)
        ensures
            res is Ok <==> names_distinct(entry_names(entries@)),
            res matches Ok(tools) ==> {
                &&& tools@.metas == entries@.map_values(|e: (ToolMeta, T)| e.0@)
                &&& tools@.tools == entries@.map_values(|e: (ToolMeta, T)| e.1)
            },
            res matches Err(e) ==> exists|j: int|
                0 <= j < entries@.len() && first_repeat(entry_names(entries@), j)
                    && #[trigger] entry_names(entries@)[j] == e.name@,
    {
        let mut tools: DynTools<T> = DynTools::new();
        let ghost names = entry_names(entries@);
        let _ = tools.len();
        proof {
            assert(tools@.metas =~= entries@.take(0).map_values(|e: (ToolMeta, T)| e.0@));
            assert(tools@.tools =~= entries@.take(0).map_values(|e: (ToolMeta, T)| e.1));
        }
        for entry in it: entries
            invariant
                it.seq() == entries@,
                names == entry_names(entries@),
                names_distinct(names_of(tools@.metas)),
                tools@.metas == entries@.take(it.index() as int).map_values(|e: (ToolMeta, T)| e.0@),
                tools@.tools == entries@.take(it.index() as int).map_values(|e: (ToolMeta, T)| e.1),
        {
            let ghost n = it.index() as int;
            let ghost before = tools@;
            assert(entry == entries@[n]);
            let (meta, tool) = entry;
            match tools.insert(meta, tool) {
                Ok(()) => {
                    let _ = tools.len();
                    proof {
                        assert(entries@.take(n + 1) =~= entries@.take(n).push(entries@[n]));
                        assert(tools@.metas =~= entries@.take(n + 1).map_values(
                            |e: (ToolMeta, T)| e.0@,
                        ));
                        assert(tools@.tools =~= entries@.take(n + 1).map_values(
                            |e: (ToolMeta, T)| e.1,
                        ));
                    }
                },
                Err(e) => {
                    proof {
                        let taken = names_of(before.metas);
                        assert(taken =~= names.take(n));
                        let i = choose|i: int| 0 <= i < taken.len() && taken[i] == meta@.name;
                        assert(names[i] == e.name@);
                        assert(names[n] == e.name@);
                        assert(first_repeat(names, n));
                    }
                    return Err(e);
                },
            }
        }
        proof {
            assert(entries@.take(entries@.len() as int) =~= entries@);
            assert(names =~= names_of(tools@.metas));
        }
        let _ = tools.len();
        Ok(tools)
    }

    /// The tool registered under `name`, if there is one.
    pub fn get(&self, name: &str) -> (tool: Option<&T>)
        ensures
            self@.metas.len() == self@.tools.len(),
            match tool {
                Some(t) => exists|i: int|
                    0 <= i < self@.metas.len() && self@.metas[i].name == name@ && self@.tools[i]
                        == *t,
                None => forall|i: int| 0 <= i < self@.metas.len() ==> self@.metas[i].name != name@,
            },
    {
        proof {
            use_type_invariant(self);
        }
        match self.position(name) {
            Some(i) => Some(&self.tools[i]),
            None => None,
        }
    }

    /// The metadata of the tools, in the order of registration.
    pub fn list_tools(&self) -> (metas: Vec<ToolMeta>)
        ensures
            meta_views(metas@) == self@.metas,
            names_distinct(names_of(self@.metas)),
    {
        proof {
            use_type_invariant(self);
        }
        clone_metas(&self.metas)
    }
}

/// The tools that are built in.
pub enum BuiltinTool {
    FindFiles(FindFiles),
    FindProcesses(FindProcesses),
}

/// The schemas of one tool: of its parameters and of its output items.
pub struct ToolSchemas {
    pub params: ObjectSchema,
    pub output: ObjectSchema,
}

/// Creates API tools: the file search first, then the process search, each
/// under its own name and with the schemas given for it.
pub fn create_tools(find_files: ToolSchemas, find_processes: ToolSchemas) -> (tools: DynTools<
    BuiltinTool,
>)
    ensures
        tools@.metas == seq![
            ToolMetaView {
                name: "find_files"@,
                description: None,
                params_schema: find_files.params@,
                output_schema: find_files.output@,
            },
            ToolMetaView {
                name: "find_processes"@,
                description: None,
                params_schema: find_processes.params@,
                output_schema: find_processes.output@,
            },
        ],
        tools@.tools == seq![
            BuiltinTool::FindFiles(FindFiles),
            BuiltinTool::FindProcesses(FindProcesses),
        ],
{
    let files = FindFiles::new();
    let processes = FindProcesses::new();
    let files_meta = ToolMeta::of(&files, find_files.params, find_files.output);
    let processes_meta = ToolMeta::of(&processes, find_processes.params, find_processes.output);
    proof {
        reveal_strlit("find_files");
        reveal_strlit("find_processes");
        assert("find_files"@.len() != "find_processes"@.len());
    }
    let mut tools: DynTools<BuiltinTool> = DynTools::new();
    let ghost empty = tools@;
    let first = tools.insert(files_meta, BuiltinTool::FindFiles(files));
    proof {
        assert(names_of(empty.metas) =~= Seq::empty());
        assert(first is Ok);
    }
    let ghost one = tools@;
    let second = tools.insert(processes_meta, BuiltinTool::FindProcesses(processes));
    proof {
        assert(names_of(one.metas) =~= seq!["find_files"@]);
        assert(!names_of(one.metas).contains("find_processes"@));
        assert(second is Ok);
        assert(tools@.metas =~= seq![files_meta@, processes_meta@]);
        assert(tools@.tools =~= seq![
            BuiltinTool::FindFiles(FindFiles),
            BuiltinTool::FindProcesses(FindProcesses),
        ]);
    }
    tools
}

} // verus!
