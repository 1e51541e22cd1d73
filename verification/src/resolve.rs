//! The walk of a request through the content sources, as a state machine.
//!
//! The caller asks the sources and hands each answer in as a
//! [`SourceEvent`]; [`ResolveState::step`] says what to ask next, or how the
//! resolution ends.

use crate::cache_buster::CacheBuster;
use crate::data::{projected, request_to_data, ContentSourceData, DataModel};
use crate::error::{ResolveError, ResolveErrorModel};
use crate::request::{RequestModel, SourceRequest};
use crate::uri::{parsed_uri, RequestUri};
use crate::vary::{ContentSourceDataVary, VaryModel};
use vstd::prelude::*;

verus! {

/// Names a content source. Two sources are the same source exactly when
/// their ids are equal.
#[derive(Clone, Copy, Debug, PartialEq, Eq, Hash, Structural)]
pub struct ContentSourceId(pub u64);

/// Names the handle from which a content source's content is got.
#[derive(Clone, Copy, Debug, PartialEq, Eq, Hash, Structural)]
pub struct GetContentId(pub u64);

/// Names static content that can be served as it is.
#[derive(Clone, Copy, Debug, PartialEq, Eq, Hash, Structural)]
pub struct StaticContentId(pub u64);

/// Names the instruction to pass the request on to another server.
#[derive(Clone, Copy, Debug, PartialEq, Eq, Hash, Structural)]
pub struct ProxyResultId(pub u64);

/// How a resolution ends. It is the content of a content source without
/// the rewrite, which the resolution follows itself.
#[derive(Clone, Copy, Debug, PartialEq, Eq, Structural)]
pub enum ResolveSourceRequestResult {
    NotFound,
    Static(StaticContentId),
    HttpProxy(ProxyResultId),
}

/// What a [`ContentSourceResult`] stands for.
pub enum SourceResultModel {
    NotFound,
    NeedData { source: ContentSourceId, path: Seq<char>, vary: VaryModel },
    Result { get_content: GetContentId },
}

/// What a content source answers when it is asked for a path.
#[derive(Clone, Debug, PartialEq, Eq)]
pub enum ContentSourceResult {
    /// The source has nothing under the path.
    NotFound,
    /// The source cannot answer yet: `source` is to be asked for `path`,
    /// and shown the parts of the request that `vary` declares.
    NeedData { source: ContentSourceId, path: String, vary: ContentSourceDataVary },
    /// The source has content, to be got from `get_content`.
    Result { get_content: GetContentId },
}

impl View for ContentSourceResult {
    type V = SourceResultModel;

    open spec fn view(&self) -> SourceResultModel {
        match self {
            ContentSourceResult::NotFound => SourceResultModel::NotFound,
            ContentSourceResult::NeedData { source, path, vary } => SourceResultModel::NeedData {
                source: *source,
                path: path@,
                vary: vary@,
            },
            ContentSourceResult::Result { get_content } => SourceResultModel::Result {
                get_content: *get_content,
            },
        }
    }
}

/// What a [`ContentSourceContent`] stands for.
pub enum ContentModel {
    NotFound,
    Rewrite { source: Option<ContentSourceId>, path_and_query: Seq<char> },
    Static(StaticContentId),
    HttpProxy(ProxyResultId),
}

/// The content that a content source has under a path.
#[derive(Clone, Debug, PartialEq, Eq)]
pub enum ContentSourceContent {
    NotFound,
    /// The request is to be resolved anew under `path_and_query`: by
    /// `source`, or from the root of the sources where `source` is `None`.
    Rewrite { source: Option<ContentSourceId>, path_and_query: String },
    Static(StaticContentId),
    HttpProxy(ProxyResultId),
}

impl View for ContentSourceContent {
    type V = ContentModel;

    open spec fn view(&self) -> ContentModel {
        match self {
            ContentSourceContent::NotFound => ContentModel::NotFound,
            ContentSourceContent::Rewrite { source, path_and_query } => ContentModel::Rewrite {
                source: *source,
                path_and_query: path_and_query@,
            },
            ContentSourceContent::Static(content) => ContentModel::Static(*content),
            ContentSourceContent::HttpProxy(proxy) => ContentModel::HttpProxy(*proxy),
        }
    }
}

/// What a [`SourceEvent`] stands for.
pub enum EventModel {
    Answer(SourceResultModel),
    Vary { get_content: GetContentId, vary: VaryModel },
    Content(ContentModel),
}

/// What came back from the sources.
#[derive(Clone, Debug, PartialEq, Eq)]
pub enum SourceEvent {
    /// The answer to [`ResolveAction::Get`].
    Answer(ContentSourceResult),
    /// The answer to [`ResolveAction::Vary`]: what `get_content` varies on.
    Vary { get_content: GetContentId, vary: ContentSourceDataVary },
    /// The answer to [`ResolveAction::GetContent`].
    Content(ContentSourceContent),
}

impl View for SourceEvent {
    type V = EventModel;

    open spec fn view(&self) -> EventModel {
        match self {
            SourceEvent::Answer(result) => EventModel::Answer(result@),
            SourceEvent::Vary { get_content, vary } => EventModel::Vary {
                get_content: *get_content,
                vary: vary@,
            },
            SourceEvent::Content(content) => EventModel::Content(content@),
        }
    }
}

/// What a [`ResolveAction`] stands for.
pub enum ActionModel {
    Get { source: ContentSourceId, path: Seq<char>, data: DataModel },
    Vary { get_content: GetContentId },
    GetContent { get_content: GetContentId, data: DataModel },
    Done(ResolveSourceRequestResult),
}

/// What the caller is to do next.
#[derive(Clone, Debug, PartialEq, Eq)]
pub enum ResolveAction {
    /// Ask `source` for `path`, showing it `data`.
    Get { source: ContentSourceId, path: String, data: ContentSourceData },
    /// Ask `get_content` what it varies on.
    Vary { get_content: GetContentId },
    /// Get the content from `get_content`, showing it `data`.
    GetContent { get_content: GetContentId, data: ContentSourceData },
    /// The resolution has ended.
    Done(ResolveSourceRequestResult),
}

impl View for ResolveAction {
    type V = ActionModel;

    open spec fn view(&self) -> ActionModel {
        match self {
            ResolveAction::Get { source, path, data } => ActionModel::Get {
                source: *source,
                path: path@,
                data: data@,
            },
            ResolveAction::Vary { get_content } => ActionModel::Vary { get_content: *get_content },
            ResolveAction::GetContent { get_content, data } => ActionModel::GetContent {
                get_content: *get_content,
                data: data@,
            },
            ResolveAction::Done(result) => ActionModel::Done(*result),
        }
    }
}

/// What a [`ResolveState`] stands for.
pub struct StateModel {
    /// The source that the resolution began at.
    pub root: ContentSourceId,
    /// The source that was asked last.
    pub current_source: ContentSourceId,
    /// The request, with the URI that the rewrites so far have led to.
    pub request: RequestModel,
}

/// What a step gives: the state after it with what to do next, or the
/// error.
pub type StepModel = Result<(StateModel, ActionModel), ResolveErrorModel>;

/// The step that leads to `state` and asks for `action`.
pub open spec fn goes_on(state: StateModel, action: ActionModel) -> StepModel {
    Ok((state, action))
}

/// The step that fails with `error`.
pub open spec fn fails(error: ResolveErrorModel) -> StepModel {
    Err(error)
}

/// The source that a rewrite leads to: the one it names, or the root where
/// it names none.
pub open spec fn rewrite_target(
    state: StateModel,
    source: Option<ContentSourceId>,
) -> ContentSourceId {
    match source {
        Some(s) => s,
        None => state.root,
    }
}

/// How a resolution of `request` by `source` begins.
pub open spec fn started(source: ContentSourceId, request: RequestModel) -> StepModel {
    match request.uri.asset_path() {
        Some(path) => Ok(
            (
                StateModel { root: source, current_source: source, request },
                ActionModel::Get { source, path, data: DataModel::empty() },
            ),
        ),
        None => Err(ResolveErrorModel::InvalidPath),
    }
}

/// What follows the answer of a source.
pub open spec fn after_answer(
    state: StateModel,
    answer: SourceResultModel,
    token: u64,
) -> StepModel {
    match answer {
        SourceResultModel::NotFound => Ok(
            (state, ActionModel::Done(ResolveSourceRequestResult::NotFound)),
        ),
        SourceResultModel::NeedData { source, path, vary } => match projected(
            state.request,
            vary,
            token,
        ) {
            Ok(data) => Ok(
                (
                    StateModel { current_source: source, ..state },
                    ActionModel::Get { source, path, data },
                ),
            ),
            Err(e) => Err(e),
        },
        SourceResultModel::Result { get_content } => Ok((state, ActionModel::Vary { get_content })),
    }
}

/// What follows once a content handle has said what it varies on.
pub open spec fn after_vary(
    state: StateModel,
    get_content: GetContentId,
    vary: VaryModel,
    token: u64,
) -> StepModel {
    match projected(state.request, vary, token) {
        Ok(data) => Ok((state, ActionModel::GetContent { get_content, data })),
        Err(e) => Err(e),
    }
}

/// What follows the content of a source.
pub open spec fn after_content(state: StateModel, content: ContentModel) -> StepModel {
    match content {
        ContentModel::NotFound => Ok(
            (state, ActionModel::Done(ResolveSourceRequestResult::NotFound)),
        ),
        ContentModel::Static(c) => Ok(
            (state, ActionModel::Done(ResolveSourceRequestResult::Static(c))),
        ),
        ContentModel::HttpProxy(p) => Ok(
            (state, ActionModel::Done(ResolveSourceRequestResult::HttpProxy(p))),
        ),
        ContentModel::Rewrite { source, path_and_query } => {
            let target = rewrite_target(state, source);
            match parsed_uri(path_and_query) {
                None => Err(ResolveErrorModel::InvalidUri),
                Some(uri) => if uri.path.len() == 0 {
                    Err(ResolveErrorModel::InvalidUri)
                } else if target == state.current_source && uri.same_as(state.request.uri) {
                    Err(ResolveErrorModel::RewriteLoop(uri.text()))
                } else {
                    match uri.asset_path() {
                        None => Err(ResolveErrorModel::InvalidPath),
                        Some(path) => Ok(
                            (
                                StateModel {
                                    root: state.root,
                                    current_source: target,
                                    request: RequestModel { uri, ..state.request },
                                },
                                ActionModel::Get {
                                    source: target,
                                    path,
                                    data: DataModel::empty(),
                                },
                            ),
                        ),
                    }
                },
            }
        },
    }
}

/// What follows `event` in `state`, where `token` is the next value of the
/// cache-buster counter.
pub open spec fn stepped(state: StateModel, event: EventModel, token: u64) -> StepModel {
    match event {
        EventModel::Answer(answer) => after_answer(state, answer, token),
        EventModel::Vary { get_content, vary } => after_vary(state, get_content, vary, token),
        EventModel::Content(content) => after_content(state, content),
    }
}

/// Whether the step that `event` causes draws a value from the
/// cache-buster counter: it does where a source is shown data that holds
/// a cache-buster.
pub open spec fn draws_token(state: StateModel, event: EventModel, token: u64) -> bool {
    match event {
        EventModel::Answer(SourceResultModel::NeedData { vary, .. }) => vary.cache_buster
            && projected(state.request, vary, token) is Ok,
        EventModel::Vary { vary, .. } => vary.cache_buster && projected(
            state.request,
            vary,
            token,
        ) is Ok,
        _ => false,
    }
}

/// A resolution under way: where it began, which source was asked last,
/// and the request with the URI that the rewrites so far have led to.
#[derive(Clone, Debug)]
pub struct ResolveState {
    root: ContentSourceId,
    current_source: ContentSourceId,
    request: SourceRequest,
}

impl View for ResolveState {
    type V = StateModel;

    closed spec fn view(&self) -> StateModel {
        StateModel {
            root: self.root,
            current_source: self.current_source,
            request: self.request@,
        }
    }
}

impl ResolveState {
    /// Begins the resolution of `request` by `source`: the source is to be
    /// asked for the path of the request, and shown nothing of it yet.
    pub fn start(source: ContentSourceId, request: SourceRequest) -> (begun: Result<
        (ResolveState, ResolveAction),
        ResolveError,
    >)
        ensures
            match begun {
                Ok((state, action)) => started(source, request@) == goes_on(state@, action@),
                Err(e) => started(source, request@) == fails(e@),
            },
    {
        let path = request.uri.asset_path()?;
        let state = ResolveState { root: source, current_source: source, request };
        Ok((state, ResolveAction::Get { source, path, data: ContentSourceData::empty() }))
    }

    /// The source that the resolution began at.
    pub fn root(&self) -> (source: ContentSourceId)
        ensures
            source == self@.root,
    {
        self.root
    }

    /// The source that was asked last.
    pub fn current_source(&self) -> (source: ContentSourceId)
        ensures
            source == self@.current_source,
    {
        self.current_source
    }

    /// The request, with the URI that the rewrites so far have led to.
    pub fn request(&self) -> (request: &SourceRequest)
        ensures
            request@ == self@.request,
    {
        &self.request
    }

    /// Takes in what came back from the sources, and says what to do next.
    ///
    /// A source that needs data is asked again, and shown what it
    /// declared. Content that is a rewrite restarts the resolution at the
    /// rewrite's source, or at the root where it names none, unless it leads
    /// to the source and the URI that it came from: that is an error. Any
    /// other content ends the resolution. After an error the state is as it
    /// was before.
    pub fn step(&mut self, event: SourceEvent, cache_buster: &mut CacheBuster) -> (next: Result<
        ResolveAction,
        ResolveError,
    >)
        ensures
            match next {
                Ok(action) => stepped(old(self)@, event@, old(cache_buster).upcoming())
                    == goes_on(final(self)@, action@),
                Err(e) => stepped(old(self)@, event@, old(cache_buster).upcoming()) == fails(e@)
                    && final(self)@ == old(self)@,
            },
            final(cache_buster).upcoming() == (if draws_token(
                old(self)@,
                event@,
                old(cache_buster).upcoming(),
            ) {
                CacheBuster::following(old(cache_buster).upcoming())
            } else {
                old(cache_buster).upcoming()
            }),
    {
        match event {
            SourceEvent::Answer(ContentSourceResult::NotFound) => Ok(
                ResolveAction::Done(ResolveSourceRequestResult::NotFound),
            ),
            SourceEvent::Answer(ContentSourceResult::NeedData { source, path, vary }) => {
                let data = request_to_data(&self.request, &vary, cache_buster)?;
                self.current_source = source;
                Ok(ResolveAction::Get { source, path, data })
            },
            SourceEvent::Answer(ContentSourceResult::Result { get_content }) => Ok(
                ResolveAction::Vary { get_content },
            ),
            SourceEvent::Vary { get_content, vary } => {
                let data = request_to_data(&self.request, &vary, cache_buster)?;
                Ok(ResolveAction::GetContent { get_content, data })
            },
            SourceEvent::Content(ContentSourceContent::NotFound) => Ok(
                ResolveAction::Done(ResolveSourceRequestResult::NotFound),
            ),
            SourceEvent::Content(ContentSourceContent::Static(content)) => Ok(
                ResolveAction::Done(ResolveSourceRequestResult::Static(content)),
            ),
            SourceEvent::Content(ContentSourceContent::HttpProxy(proxy)) => Ok(
                ResolveAction::Done(ResolveSourceRequestResult::HttpProxy(proxy)),
            ),
            SourceEvent::Content(ContentSourceContent::Rewrite { source, path_and_query }) => {
                let target = match source {
                    Some(s) => s,
                    None => self.root,
                };
                let uri = RequestUri::parse(path_and_query.as_str())?;
                if target == self.current_source && uri.same_as(&self.request.uri) {
                    return Err(ResolveError::RewriteLoop(uri.text()));
                }
                let path = uri.asset_path()?;
                self.current_source = target;
                self.request.uri = uri;
                Ok(ResolveAction::Get { source: target, path, data: ContentSourceData::empty() })
            },
        }
    }
}

/// A rewrite that names the source that was asked last (by name, or as the
/// root) and leads to the URI that the request has already is refused as a
/// loop; the error holds that URI.
pub proof fn lemma_rewrite_to_same_place_is_loop(
    state: StateModel,
    source: Option<ContentSourceId>,
    path_and_query: Seq<char>,
)
    requires
        parsed_uri(path_and_query) matches Some(uri) && uri.path.len() > 0 && uri.same_as(
            state.request.uri,
        ),
        rewrite_target(state, source) == state.current_source,
    ensures
        after_content(state, ContentModel::Rewrite { source, path_and_query }) == fails(
            ResolveErrorModel::RewriteLoop(parsed_uri(path_and_query)->0.text()),
        ),
{
}

/// A rewrite that is followed and then comes again, while the same source
/// is being asked, is refused as a loop the second time.
pub proof fn lemma_same_rewrite_again_is_loop(
    state: StateModel,
    source: Option<ContentSourceId>,
    path_and_query: Seq<char>,
)
    requires
        after_content(state, ContentModel::Rewrite { source, path_and_query }) is Ok,
    ensures
        after_content(
            after_content(state, ContentModel::Rewrite { source, path_and_query })->Ok_0.0,
            ContentModel::Rewrite { source, path_and_query },
        ) == fails(ResolveErrorModel::RewriteLoop(parsed_uri(path_and_query)->0.text())),
{
}

/// A rewrite that leads to another source or to another URI is followed,
/// where the new path can be decoded: the target is asked for the new
/// path and shown nothing of the request yet, the request has the new URI
/// from then on, and the root stays the root.
pub proof fn lemma_rewrite_elsewhere_restarts(
    state: StateModel,
    source: Option<ContentSourceId>,
    path_and_query: Seq<char>,
)
    requires
        parsed_uri(path_and_query) matches Some(uri) && uri.path.len() > 0
            && uri.asset_path() is Some && (rewrite_target(state, source) != state.current_source
            || !uri.same_as(state.request.uri)),
    ensures
        after_content(state, ContentModel::Rewrite { source, path_and_query }) == goes_on(
            StateModel {
                root: state.root,
                current_source: rewrite_target(state, source),
                request: RequestModel { uri: parsed_uri(path_and_query)->0, ..state.request },
            },
            ActionModel::Get {
                source: rewrite_target(state, source),
                path: parsed_uri(path_and_query)->0.asset_path()->0,
                data: DataModel::empty(),
            },
        ),
{
}

/// A rewrite that names no source is resolved against the root, whichever
/// source it came from: it does what the same rewrite does when it names
/// the root.
pub proof fn lemma_rewrite_without_source_goes_to_root(state: StateModel, path_and_query: Seq<char>)
    ensures
        rewrite_target(state, None) == state.root,
        after_content(state, ContentModel::Rewrite { source: None, path_and_query })
            == after_content(
            state,
            ContentModel::Rewrite { source: Some(state.root), path_and_query },
        ),
        after_content(
            state,
            ContentModel::Rewrite { source: None, path_and_query },
        ) matches Ok((after, ActionModel::Get { source, .. })) ==> (after.root == state.root
            && after.current_source == state.root && source == state.root),
{
}

/// Content that is no rewrite ends the resolution as what it is, and a
/// source without an answer ends it as not found; the state stays as it
/// was.
pub proof fn lemma_terminal_mapping(
    state: StateModel,
    content: StaticContentId,
    proxy: ProxyResultId,
    token: u64,
)
    ensures
        after_content(state, ContentModel::Static(content)) == goes_on(
            state,
            ActionModel::Done(ResolveSourceRequestResult::Static(content)),
        ),
        after_content(state, ContentModel::HttpProxy(proxy)) == goes_on(
            state,
            ActionModel::Done(ResolveSourceRequestResult::HttpProxy(proxy)),
        ),
        after_content(state, ContentModel::NotFound) == goes_on(
            state,
            ActionModel::Done(ResolveSourceRequestResult::NotFound),
        ),
        after_answer(state, SourceResultModel::NotFound, token) == goes_on(
            state,
            ActionModel::Done(ResolveSourceRequestResult::NotFound),
        ),
{
}

} // verus!
