//! The derive-and-execute loop, as a state machine.
//!
//! A session decides; its owner acts. Each call of [`Session::step`] takes in
//! what came of the last action and says what is to be done next: ask the
//! model, invoke a tool, stream its output, or finish.

use crate::config::Config;
use crate::llm::{LlmError, ToolCall};
use crate::tool::{
    is_known, meta_views, named, names_of, retain_named, strip_all, stripped_all, ToolError,
    ToolMeta, ToolMetaView,
};
use vstd::prelude::*;
use vstd::string::*;

verus! {

/// Why a query came to nothing.
pub enum QueryError {
    /// Cancellation was requested while the query was processed.
    Cancelled,
    /// Every try to derive a tool call was spent without a call that ran.
    DeriveToolCall,
    /// The configuration of the model is unusable, or the request failed.
    Llm(LlmError),
    /// The tool that the query called by name failed.
    Tool(ToolError),
    /// The query called a tool by a name that no tool has.
    UnknownTool(String),
    /// The session was told of something that it did not wait for.
    OutOfTurn,
}

impl QueryError {
    /// The short code of each kind of error; an error of the model or of a
    /// tool goes by the code of that error.
    pub open spec fn spec_code(&self) -> Seq<char> {
        match self {
            QueryError::Cancelled => "cancelled"@,
            QueryError::DeriveToolCall => "derive_tool_call"@,
            QueryError::Llm(e) => e.spec_code(),
            QueryError::Tool(e) => e.spec_code(),
            QueryError::UnknownTool(_) => "unknown_tool"@,
            QueryError::OutOfTurn => "out_of_turn"@,
        }
    }

    /// A short code by which a program can tell the kinds of error apart.
    pub fn code(&self) -> (code: &'static str)
        ensures
            code@ == self.spec_code(),
    {
        match self {
            QueryError::Cancelled => "cancelled",
            QueryError::DeriveToolCall => "derive_tool_call",
            QueryError::Llm(e) => e.code(),
            QueryError::Tool(e) => e.code(),
            QueryError::UnknownTool(_) => "unknown_tool",
            QueryError::OutOfTurn => "out_of_turn",
        }
    }

    /// The message of the error, followed by the messages of the error
    /// inside it and of its causes, the nearest first.
    pub open spec fn spec_chain(&self) -> Seq<Seq<char>> {
        match self {
            QueryError::Llm(e) => seq![self.spec_message()] + e.spec_chain(),
            QueryError::Tool(e) => seq![self.spec_message()] + e.spec_chain(),
            _ => seq![self.spec_message()],
        }
    }

    /// The message of the error, followed by those of its causes, the
    /// nearest cause first.
    pub fn chain(&self) -> (chain: Vec<String>)
        ensures
            crate::tool::schema::text_views(chain@) == self.spec_chain(),
    {
        let mut chain: Vec<String> = Vec::new();
        chain.push(self.message());
        match self {
            QueryError::Llm(e) => {
                let mut causes = e.chain();
                let ghost inner = causes@;
                chain.append(&mut causes);
                proof {
                    assert(crate::tool::schema::text_views(chain@) =~= seq![self.spec_message()]
                        + crate::tool::schema::text_views(inner));
                }
            },
            QueryError::Tool(e) => {
                let mut causes = e.chain();
                let ghost inner = causes@;
                chain.append(&mut causes);
                proof {
                    assert(crate::tool::schema::text_views(chain@) =~= seq![self.spec_message()]
                        + crate::tool::schema::text_views(inner));
                }
            },
            _ => {
                proof {
                    assert(crate::tool::schema::text_views(chain@) =~= seq![self.spec_message()]);
                }
            },
        }
        chain
    }

    /// The text that describes each kind of error.
    pub open spec fn spec_message(&self) -> Seq<char> {
        match self {
            QueryError::Cancelled => "processing cancelled"@,
            QueryError::DeriveToolCall => "failed to derive tool call"@,
            QueryError::Llm(_) => "llm error"@,
            QueryError::Tool(_) => "tool error"@,
            QueryError::UnknownTool(name) => "unknown tool '"@ + name@ + "'"@,
            QueryError::OutOfTurn => "event out of turn"@,
        }
    }

    /// A short description of the error, without its cause.
    pub fn message(&self) -> (text: String)
        ensures
            text@ == self.spec_message(),
    {
        match self {
            QueryError::Cancelled => String::from_str("processing cancelled"),
            QueryError::DeriveToolCall => String::from_str("failed to derive tool call"),
            QueryError::Llm(_) => String::from_str("llm error"),
            QueryError::Tool(_) => String::from_str("tool error"),
            QueryError::UnknownTool(name) => String::from_str("unknown tool '").concat(
                name.as_str(),
            ).concat("'"),
            QueryError::OutOfTurn => String::from_str("event out of turn"),
        }
    }
}

/// Where a session stands.
#[derive(Clone, Copy, Debug, PartialEq, Eq, Structural)]
pub enum Stage {
    /// Nothing has happened yet.
    Start,
    /// The model was asked to pick a tool by name.
    NameOnly,
    /// The model was asked to derive a call with its parameters.
    ParamDerive,
    /// A derived call is being invoked.
    Execute,
    /// The call that the query spelled out is being invoked.
    ExecuteLiteral,
    /// The output of the tool is being streamed.
    Streaming,
    /// The session is over.
    Done,
}

/// What came of the last action.
pub enum Event {
    /// The query arrived. `literal` is the tool call that the query spells
    /// out, if it is one; `contextualized` is the query put into the template
    /// of the configuration, or the reason why that, or the choice of the
    /// provider, failed.
    Begin { literal: Option<ToolCall>, contextualized: Result<String, LlmError> },
    /// The model answered, or the request failed.
    Derived(Result<Option<ToolCall>, LlmError>),
    /// The tool accepted the call and its output is ready, or it refused.
    Invoked(Result<(), ToolError>),
    /// The output was streamed to its end.
    Consumed,
}

/// How a query ended well.
pub enum Outcome {
    /// A tool ran and its output was streamed.
    Completed,
    /// Only the call was asked for: here it is.
    Derived(ToolCall),
}

/// What is to be done next.
pub enum Action {
    /// Ask the model to derive a call of one of `tools` from `query`.
    Ask { tools: Vec<ToolMeta>, query: String },
    /// Invoke the tool that the call names with the parameters it holds.
    Invoke(ToolCall),
    /// Stream the output of the tool that was invoked.
    Stream,
    /// Stop: the query is done with.
    Finish(Result<Outcome, QueryError>),
}

/// An action as the contracts see it.
pub ghost enum Decision {
    Ask { tools: Seq<ToolMetaView>, query: Seq<char> },
    Invoke(ToolCall),
    Stream,
    Finish(Result<Outcome, QueryError>),
}

impl View for Action {
    type V = Decision;

    open spec fn view(&self) -> Decision {
        match self {
            Action::Ask { tools, query } => Decision::Ask {
                tools: meta_views(tools@),
                query: query@,
            },
            Action::Invoke(call) => Decision::Invoke(*call),
            Action::Stream => Decision::Stream,
            Action::Finish(end) => Decision::Finish(*end),
        }
    }
}

/// A session as the contracts see it.
pub ghost struct SessionView {
    pub stage: Stage,
    /// How many tries may still be begun.
    pub tries_left: nat,
    pub double_pass: bool,
    pub derive_only: bool,
    /// The tools that can be called, by their metadata.
    pub tools: Seq<ToolMetaView>,
    /// The query as it was asked.
    pub query: Seq<char>,
    /// The query within the template of the configuration.
    pub contextualized: Seq<char>,
}

impl SessionView {
    /// Whether a tool is called `name`.
    pub open spec fn knows(self, name: Seq<char>) -> bool {
        names_of(self.tools).contains(name)
    }

    /// The session that is over.
    pub open spec fn done(self) -> SessionView {
        SessionView { stage: Stage::Done, ..self }
    }

    /// Ends the session.
    pub open spec fn finish(self, end: Result<Outcome, QueryError>) -> (SessionView, Decision) {
        (self.done(), Decision::Finish(end))
    }

    /// Begins the next try, if there is one.
    ///
    /// With no try left the derivation has failed. Else a request for
    /// cancellation ends the session before anything is asked. Else one try
    /// is spent: in two passes the model is first asked to pick among the
    /// tools without their parameters, from the query as it was asked; in one
    /// pass it is asked at once for a call of any tool, from the query in its
    /// context.
    pub open spec fn begin_try(self, cancelled: bool) -> (SessionView, Decision) {
        if self.tries_left == 0 {
            self.finish(Err(QueryError::DeriveToolCall))
        } else if cancelled {
            self.finish(Err(QueryError::Cancelled))
        } else if self.double_pass {
            (
                SessionView {
                    stage: Stage::NameOnly,
                    tries_left: (self.tries_left - 1) as nat,
                    ..self
                },
                Decision::Ask { tools: stripped_all(self.tools), query: self.query },
            )
        } else {
            (
                SessionView {
                    stage: Stage::ParamDerive,
                    tries_left: (self.tries_left - 1) as nat,
                    ..self
                },
                Decision::Ask { tools: self.tools, query: self.contextualized },
            )
        }
    }

    /// Takes the query in.
    ///
    /// A query that spells out a call goes past the model: its tool is
    /// invoked if there is one of that name. Any other query is derived from,
    /// unless it could not be put into its context.
    pub open spec fn on_begin(
        self,
        literal: Option<ToolCall>,
        contextualized: Result<String, LlmError>,
        cancelled: bool,
    ) -> (SessionView, Decision) {
        match literal {
            Some(call) => if self.knows(call.tool@) {
                (SessionView { stage: Stage::ExecuteLiteral, ..self }, Decision::Invoke(call))
            } else {
                self.finish(Err(QueryError::UnknownTool(call.tool)))
            },
            None => match contextualized {
                Ok(text) => SessionView { contextualized: text@, ..self }.begin_try(cancelled),
                Err(e) => self.finish(Err(QueryError::Llm(e))),
            },
        }
    }

    /// Takes in the tool that the model picked by name.
    ///
    /// If tools of that name exist, the model is asked for the parameters,
    /// with those tools alone to choose from, unless cancellation was
    /// requested meanwhile. A name that no tool has costs the try.
    pub open spec fn on_name(self, call: ToolCall, cancelled: bool) -> (SessionView, Decision) {
        let candidates = named(self.tools, call.tool@);
        if candidates.len() == 0 {
            self.begin_try(cancelled)
        } else if cancelled {
            self.finish(Err(QueryError::Cancelled))
        } else {
            (
                SessionView { stage: Stage::ParamDerive, ..self },
                Decision::Ask { tools: candidates, query: self.contextualized },
            )
        }
    }

    /// Takes in the call that the model derived.
    ///
    /// Where only the call was asked for, it is the outcome. Else its tool
    /// is invoked; a name that no tool has costs the try.
    pub open spec fn on_call(self, call: ToolCall, cancelled: bool) -> (SessionView, Decision) {
        if self.derive_only {
            self.finish(Ok(Outcome::Derived(call)))
        } else if self.knows(call.tool@) {
            (SessionView { stage: Stage::Execute, ..self }, Decision::Invoke(call))
        } else {
            self.begin_try(cancelled)
        }
    }

    /// The state and the action that follow from a state and an event.
    ///
    /// `cancelled` says whether cancellation had been requested when the
    /// event was taken in. A failed request ends the session, as does a
    /// failure of the tool that the query called by name. No usable call, an
    /// unknown tool and a tool that refuses a derived call each cost one try.
    /// An event that the stage does not wait for ends the session.
    pub open spec fn next(self, event: Event, cancelled: bool) -> (SessionView, Decision) {
        match (self.stage, event) {
            (Stage::Start, Event::Begin { literal, contextualized }) => self.on_begin(
                literal,
                contextualized,
                cancelled,
            ),
            (Stage::NameOnly, Event::Derived(Ok(Some(call)))) => self.on_name(call, cancelled),
            (Stage::ParamDerive, Event::Derived(Ok(Some(call)))) => self.on_call(call, cancelled),
            (Stage::NameOnly, Event::Derived(Ok(None)))
            | (Stage::ParamDerive, Event::Derived(Ok(None))) => self.begin_try(cancelled),
            (Stage::NameOnly, Event::Derived(Err(e)))
            | (Stage::ParamDerive, Event::Derived(Err(e))) => self.finish(Err(QueryError::Llm(e))),
            (Stage::Execute, Event::Invoked(Ok(_)))
            | (Stage::ExecuteLiteral, Event::Invoked(Ok(_))) => (
                SessionView { stage: Stage::Streaming, ..self },
                Decision::Stream,
            ),
            (Stage::Execute, Event::Invoked(Err(_))) => self.begin_try(cancelled),
            (Stage::ExecuteLiteral, Event::Invoked(Err(e))) => self.finish(
                Err(QueryError::Tool(e)),
            ),
            (Stage::Streaming, Event::Consumed) => if cancelled {
                self.finish(Err(QueryError::Cancelled))
            } else {
                self.finish(Ok(Outcome::Completed))
            },
            _ => self.finish(Err(QueryError::OutOfTurn)),
        }
    }
}

/// The processing of one query.
pub struct Session {
    stage: Stage,
    tries_left: u32,
    double_pass: bool,
    derive_only: bool,
    tools: Vec<ToolMeta>,
    query: String,
    contextualized: String,
}

impl View for Session {
    type V = SessionView;

    closed spec fn view(&self) -> SessionView {
        SessionView {
            stage: self.stage,
            tries_left: self.tries_left as nat,
            double_pass: self.double_pass,
            derive_only: self.derive_only,
            tools: meta_views(self.tools@),
            query: self.query@,
            contextualized: self.contextualized@,
        }
    }
}

impl Session {
    /// Creates the session for a query.
    ///
    /// `tools` are the tools that can be called. With `derive_only` the
    /// session ends with the call that was derived, and invokes nothing that
    /// the model proposed.
    pub fn new(config: &Config, derive_only: bool, tools: Vec<ToolMeta>, query: String) -> (session:
        Session)
        ensures
            session@ == (SessionView {
                stage: Stage::Start,
                tries_left: config.num_derive_tries as nat,
                double_pass: config.double_pass_derive,
                derive_only,
                tools: meta_views(tools@),
                query: query@,
                contextualized: Seq::empty(),
            }),
    {
        Session {
            stage: Stage::Start,
            tries_left: config.num_derive_tries,
            double_pass: config.double_pass_derive,
            derive_only,
            tools,
            query,
            contextualized: String::new(),
        }
    }

    /// Where the session stands.
    pub fn stage(&self) -> (stage: Stage)
        ensures
            stage == self@.stage,
    {
        self.stage
    }

    fn finish(&mut self, end: Result<Outcome, QueryError>) -> (action: Action)
        ensures
            (final(self)@, action@) == old(self)@.finish(end),
    {
        self.stage = Stage::Done;
        Action::Finish(end)
    }

    fn begin_try(&mut self, cancelled: bool) -> (action: Action)
        ensures
            (final(self)@, action@) == old(self)@.begin_try(cancelled),
    {
        if self.tries_left == 0 {
            self.finish(Err(QueryError::DeriveToolCall))
        } else if cancelled {
            self.finish(Err(QueryError::Cancelled))
        } else if self.double_pass {
            self.stage = Stage::NameOnly;
            self.tries_left = self.tries_left - 1;
            Action::Ask { tools: strip_all(&self.tools), query: self.query.clone() }
        } else {
            self.stage = Stage::ParamDerive;
            self.tries_left = self.tries_left - 1;
            Action::Ask {
                tools: crate::tool::clone_metas(&self.tools),
                query: self.contextualized.clone(),
            }
        }
    }

    fn on_begin(
        &mut self,
        literal: Option<ToolCall>,
        contextualized: Result<String, LlmError>,
        cancelled: bool,
    ) -> (action: Action)
        ensures
            (final(self)@, action@) == old(self)@.on_begin(literal, contextualized, cancelled),
    {
        match literal {
            Some(call) => {
                if is_known(&self.tools, call.tool.as_str()) {
                    self.stage = Stage::ExecuteLiteral;
                    Action::Invoke(call)
                } else {
                    self.finish(Err(QueryError::UnknownTool(call.tool)))
                }
            },
            None => match contextualized {
                Ok(text) => {
                    self.contextualized = text;
                    self.begin_try(cancelled)
                },
                Err(e) => self.finish(Err(QueryError::Llm(e))),
            },
        }
    }

    fn on_name(&mut self, call: ToolCall, cancelled: bool) -> (action: Action)
        ensures
            (final(self)@, action@) == old(self)@.on_name(call, cancelled),
    {
        let candidates = retain_named(&self.tools, call.tool.as_str());
        if candidates.len() == 0 {
            self.begin_try(cancelled)
        } else if cancelled {
            self.finish(Err(QueryError::Cancelled))
        } else {
            self.stage = Stage::ParamDerive;
            Action::Ask { tools: candidates, query: self.contextualized.clone() }
        }
    }

    fn on_call(&mut self, call: ToolCall, cancelled: bool) -> (action: Action)
        ensures
            (final(self)@, action@) == old(self)@.on_call(call, cancelled),
    {
        if self.derive_only {
            self.finish(Ok(Outcome::Derived(call)))
        } else if is_known(&self.tools, call.tool.as_str()) {
            self.stage = Stage::Execute;
            Action::Invoke(call)
        } else {
            self.begin_try(cancelled)
        }
    }

    /// Takes in what came of the last action and decides on the next.
    ///
    /// `cancelled` is the cancellation flag as it stands at the time of the
    /// call.
    pub fn step(&mut self, event: Event, cancelled: bool) -> (action: Action)
        ensures
            (final(self)@, action@) == old(self)@.next(event, cancelled),
    {
        match (self.stage, event) {
            (Stage::Start, Event::Begin { literal, contextualized }) => self.on_begin(
                literal,
                contextualized,
                cancelled,
            ),
            (Stage::NameOnly, Event::Derived(Ok(Some(call)))) => self.on_name(call, cancelled),
            (Stage::ParamDerive, Event::Derived(Ok(Some(call)))) => self.on_call(call, cancelled),
            (Stage::NameOnly, Event::Derived(Ok(None))) => self.begin_try(cancelled),
            (Stage::ParamDerive, Event::Derived(Ok(None))) => self.begin_try(cancelled),
            (Stage::NameOnly, Event::Derived(Err(e))) => self.finish(Err(QueryError::Llm(e))),
            (Stage::ParamDerive, Event::Derived(Err(e))) => self.finish(Err(QueryError::Llm(e))),
            (Stage::Execute, Event::Invoked(Ok(_))) => {
                self.stage = Stage::Streaming;
                Action::Stream
            },
            (Stage::ExecuteLiteral, Event::Invoked(Ok(_))) => {
                self.stage = Stage::Streaming;
                Action::Stream
            },
            (Stage::Execute, Event::Invoked(Err(_))) => self.begin_try(cancelled),
            (Stage::ExecuteLiteral, Event::Invoked(Err(e))) => self.finish(
                Err(QueryError::Tool(e)),
            ),
            (Stage::Streaming, Event::Consumed) => {
                if cancelled {
                    self.finish(Err(QueryError::Cancelled))
                } else {
                    self.finish(Ok(Outcome::Completed))
                }
            },
            _ => self.finish(Err(QueryError::OutOfTurn)),
        }
    }
}

/// No tool of a list has the name `name` exactly if picking the tools of
/// that name leaves none.
pub proof fn lemma_named_none(tools: Seq<ToolMetaView>, name: Seq<char>)
    ensures
        named(tools, name).len() == 0 <==> !names_of(tools).contains(name),
    decreases tools.len(),
{
    reveal(Seq::filter);
    let names = names_of(tools);
    if tools.len() == 0 {
    } else {
        let rest = tools.drop_last();
        lemma_named_none(rest, name);
        assert(names_of(rest) =~= names.drop_last());
        if tools.last().name == name {
            assert(names[tools.len() - 1] == name);
        } else {
            if names.contains(name) {
                let i = choose|i: int| 0 <= i < names.len() && names[i] == name;
                assert(names.drop_last()[i] == name);
            }
            if names.drop_last().contains(name) {
                let i = choose|i: int| 0 <= i < names.drop_last().len() && names.drop_last()[i] == name;
                assert(names[i] == name);
            }
        }
    }
}

/// Where exactly one tool of a list has the name `name`, picking the tools
/// of that name leaves that tool and no other.
pub proof fn lemma_named_one(tools: Seq<ToolMetaView>, name: Seq<char>, i: int)
    requires
        0 <= i < tools.len(),
        tools[i].name == name,
        forall|j: int| 0 <= j < tools.len() && j != i ==> tools[j].name != name,
    ensures
        named(tools, name) == seq![tools[i]],
    decreases tools.len(),
{
    reveal(Seq::filter);
    let rest = tools.drop_last();
    if i == tools.len() - 1 {
        lemma_named_none(rest, name);
        if names_of(rest).contains(name) {
            let j = choose|j: int| 0 <= j < names_of(rest).len() && names_of(rest)[j] == name;
            assert(tools[j].name == name);
        }
        assert(named(rest, name) =~= Seq::empty());
        assert(named(tools, name) =~= seq![tools[i]]);
    } else {
        lemma_named_one(rest, name, i);
        assert(named(tools, name) =~= seq![tools[i]]);
    }
}

/// In two passes, the second request offers one tool exactly where one tool
/// has the name that the first request brought: however many tools there
/// are, the model then derives the parameters of that one.
pub proof fn lemma_second_pass_offers_one(s: SessionView, call: ToolCall, i: int)
    requires
        s.stage == Stage::NameOnly,
        0 <= i < s.tools.len(),
        s.tools[i].name == call.tool@,
        forall|j: int| 0 <= j < s.tools.len() && j != i ==> s.tools[j].name != call.tool@,
    ensures
        s.next(Event::Derived(Ok(Some(call))), false).1 == (Decision::Ask {
            tools: seq![s.tools[i]],
            query: s.contextualized,
        }),
        s.next(Event::Derived(Ok(Some(call))), false).0.stage == Stage::ParamDerive,
{
    lemma_named_one(s.tools, call.tool@, i);
}

/// An answer that brings a try to nothing: the model derived no call, or,
/// where calls are to be invoked, a call of a tool that does not exist.
pub open spec fn fruitless(s: SessionView, reply: Event) -> bool {
    reply matches Event::Derived(Ok(answer)) && match answer {
        None => true,
        Some(call) => !s.knows(call.tool@) && !s.derive_only,
    }
}

/// The state and the action that a session reaches from the state `s` and
/// the action `d` when it is given `replies` one after the other and no
/// cancellation is requested.
pub open spec fn replay(s: SessionView, d: Decision, replies: Seq<Event>) -> (SessionView, Decision)
    decreases replies.len(),
{
    if replies.len() == 0 {
        (s, d)
    } else {
        replay(s, d, replies.drop_last()).0.next(replies.last(), false)
    }
}

/// The state and the action that a session reaches when it begins on a
/// query that spells out no call and is then given `replies`.
pub open spec fn derive_with(s: SessionView, contextualized: String, replies: Seq<Event>) -> (
    SessionView,
    Decision,
) {
    let begun = s.next(Event::Begin { literal: None, contextualized: Ok(contextualized) }, false);
    replay(begun.0, begun.1, replies)
}

/// Retry exhaustion: a session with `k` tries whose every request is
/// answered fruitlessly asks `k` times and then fails as exhausted.
///
/// After fewer than `k` such answers the session has asked again; after the
/// `k`-th it ends with [`QueryError::DeriveToolCall`]. This holds in one pass
/// and in two, for a model that never derives a call as for one that keeps
/// naming a tool that does not exist.
pub proof fn lemma_fruitless_tries_exhaust(s: SessionView, contextualized: String, replies: Seq<Event>)
    requires
        s.stage == Stage::Start,
        replies.len() <= s.tries_left,
        forall|i: int| 0 <= i < replies.len() ==> fruitless(s, #[trigger] replies[i]),
    ensures
        replies.len() < s.tries_left ==> {
            &&& derive_with(s, contextualized, replies).1 is Ask
            &&& derive_with(s, contextualized, replies).0.tries_left == s.tries_left
                - replies.len() - 1
        },
        replies.len() == s.tries_left ==> derive_with(s, contextualized, replies) == (
            SessionView {
                stage: Stage::Done,
                tries_left: 0,
                contextualized: contextualized@,
                ..s
            },
            Decision::Finish(Err(QueryError::DeriveToolCall)),
        ),
    decreases replies.len(),
{
    let begun = s.next(Event::Begin { literal: None, contextualized: Ok(contextualized) }, false);
    let reached = derive_with(s, contextualized, replies);
    if replies.len() == 0 {
    } else {
        let earlier = replies.drop_last();
        lemma_fruitless_tries_exhaust(s, contextualized, earlier);
        let before = derive_with(s, contextualized, earlier).0;
        lemma_asking_keeps(s, contextualized, earlier);
        assert(reached == before.next(replies.last(), false));
        assert(fruitless(s, replies[replies.len() - 1]));
        match replies.last() {
            Event::Derived(Ok(Some(call))) => {
                lemma_named_none(before.tools, call.tool@);
            },
            _ => {},
        }
    }
}

/// While a session keeps asking, it waits for an answer and is otherwise as
/// it began.
proof fn lemma_asking_keeps(s: SessionView, contextualized: String, replies: Seq<Event>)
    requires
        s.stage == Stage::Start,
        replies.len() < s.tries_left,
        forall|i: int| 0 <= i < replies.len() ==> fruitless(s, #[trigger] replies[i]),
    ensures
        ({
            let reached = derive_with(s, contextualized, replies).0;
            &&& reached.stage == Stage::NameOnly || reached.stage == Stage::ParamDerive
            &&& reached == SessionView {
                stage: reached.stage,
                tries_left: reached.tries_left,
                contextualized: contextualized@,
                ..s
            }
            &&& reached.tries_left == s.tries_left - replies.len() - 1
        }),
    decreases replies.len(),
{
    if replies.len() == 0 {
    } else {
        let earlier = replies.drop_last();
        lemma_asking_keeps(s, contextualized, earlier);
        let before = derive_with(s, contextualized, earlier).0;
        assert(derive_with(s, contextualized, replies) == before.next(replies.last(), false));
        assert(fruitless(s, replies[replies.len() - 1]));
        match replies.last() {
            Event::Derived(Ok(Some(call))) => {
                lemma_named_none(before.tools, call.tool@);
            },
            _ => {},
        }
    }
}

/// Once cancellation was requested, a session asks the model nothing more,
/// whatever it is told.
pub proof fn lemma_cancelled_asks_nothing(s: SessionView, event: Event)
    ensures
        s.next(event, true).1 !is Ask,
{
}

/// A query that spells out a tool call goes past the model: the session
/// invokes the tool named, or fails at once if there is none of that name.
pub proof fn lemma_literal_call_bypasses_model(
    s: SessionView,
    call: ToolCall,
    contextualized: Result<String, LlmError>,
    cancelled: bool,
)
    requires
        s.stage == Stage::Start,
    ensures
        ({
            let decision = s.next(Event::Begin { literal: Some(call), contextualized }, cancelled).1;
            if s.knows(call.tool@) {
                decision == Decision::Invoke(call)
            } else {
                decision == Decision::Finish(Err(QueryError::UnknownTool(call.tool)))
            }
        }),
{
}

} // verus!
