//! The request envelope and the dispatch rules: which model variant an
//! inbound request targets, and what the service answers when no branch of
//! the envelope is satisfied.

use vstd::prelude::*;
use vstd::string::StringExecFns;
use crate::envelope::parse_clip_request;
use crate::models::{ModelInput, ModelInputView};

verus! {

/// One requested model variant: the base name the client asked for.
#[derive(Debug)]
pub struct ModelRef {
    pub model_name: String,
}

/// The two optional branches of the request envelope.
#[derive(Debug)]
pub struct ClipContent {
    pub visual: Option<ModelRef>,
    pub textual: Option<ModelRef>,
}

/// The parsed request envelope: `{ "clip": { "visual"?, "textual"? } }`.
#[derive(Debug)]
pub struct ClipRequest {
    pub clip: ClipContent,
}

/// Mathematical form of the envelope: the requested base names.
pub struct ClipRequestView {
    pub visual: Option<Seq<char>>,
    pub textual: Option<Seq<char>>,
}

impl View for ClipRequest {
    type V = ClipRequestView;

    open spec fn view(&self) -> ClipRequestView {
        ClipRequestView {
            visual: match self.clip.visual {
                Some(m) => Some(m.model_name@),
                None => None,
            },
            textual: match self.clip.textual {
                Some(m) => Some(m.model_name@),
                None => None,
            },
        }
    }
}

/// Which branch a request resolves to, and under which cache key.
#[derive(Debug)]
pub enum DispatchDecision {
    Visual { cache_key: String },
    Textual { cache_key: String },
    NoModel,
}

/// Mathematical form of a dispatch decision.
pub enum DispatchDecisionView {
    Visual { cache_key: Seq<char> },
    Textual { cache_key: Seq<char> },
    NoModel,
}

impl View for DispatchDecision {
    type V = DispatchDecisionView;

    open spec fn view(&self) -> DispatchDecisionView {
        match self {
            DispatchDecision::Visual { cache_key } => DispatchDecisionView::Visual {
                cache_key: cache_key@,
            },
            DispatchDecision::Textual { cache_key } => DispatchDecisionView::Textual {
                cache_key: cache_key@,
            },
            DispatchDecision::NoModel => DispatchDecisionView::NoModel,
        }
    }
}

/// The dispatch priority: a visual descriptor with an image payload wins and
/// short-circuits; otherwise a textual descriptor with a text payload
/// resolves under the base name with `_text` appended; otherwise no model is
/// specified.
pub open spec fn spec_dispatch(
    r: ClipRequestView,
    has_image: bool,
    has_text: bool,
) -> DispatchDecisionView {
    if r.visual is Some && has_image {
        DispatchDecisionView::Visual { cache_key: r.visual->0 }
    } else if r.textual is Some && has_text {
        DispatchDecisionView::Textual { cache_key: r.textual->0 + "_text"@ }
    } else {
        DispatchDecisionView::NoModel
    }
}

/// The cache key of the text variant of `base`: the base name with `_text`
/// appended.
pub fn text_cache_key(base: &String) -> (k: String)
    ensures
        k@ == base@ + "_text"@,
{
    let mut k = base.clone();
    k.append("_text");
    k
}

/// Decides which model the request targets, by the dispatch priority.
pub fn resolve_dispatch(req: &ClipRequest, has_image: bool, has_text: bool) -> (d: DispatchDecision)
    ensures
        d@ == spec_dispatch(req@, has_image, has_text),
{
    if has_image {
        if let Some(v) = &req.clip.visual {
            return DispatchDecision::Visual { cache_key: v.model_name.clone() };
        }
    }
    if has_text {
        if let Some(t) = &req.clip.textual {
            return DispatchDecision::Textual { cache_key: text_cache_key(&t.model_name) };
        }
    }
    DispatchDecision::NoModel
}

/// What the service does with one request once its envelope is parsed:
/// answer a client error, or invoke a model on a payload under a cache key.
#[derive(Debug)]
pub enum PredictPlan {
    /// The envelope did not parse: a client error carrying the parser detail.
    BadRequest { details: String },
    /// No branch was satisfied: a client error.
    NoModel,
    /// Resolve `cache_key` in the cache and process `input` with it.
    Invoke { cache_key: String, input: ModelInput },
}

/// Mathematical form of a predict plan.
pub enum PredictPlanView {
    BadRequest { details: Seq<char> },
    NoModel,
    Invoke { cache_key: Seq<char>, input: ModelInputView },
}

impl View for PredictPlan {
    type V = PredictPlanView;

    open spec fn view(&self) -> PredictPlanView {
        match self {
            PredictPlan::BadRequest { details } => PredictPlanView::BadRequest {
                details: details@,
            },
            PredictPlan::NoModel => PredictPlanView::NoModel,
            PredictPlan::Invoke { cache_key, input } => PredictPlanView::Invoke {
                cache_key: cache_key@,
                input: input@,
            },
        }
    }
}

/// The plan a parsed envelope and the supplied payloads call for: the
/// dispatch priority picks the branch, and the matching payload becomes the
/// model input.
pub open spec fn spec_plan(
    r: ClipRequestView,
    text: Option<Seq<char>>,
    image: Option<Seq<u8>>,
) -> PredictPlanView {
    match spec_dispatch(r, image is Some, text is Some) {
        DispatchDecisionView::Visual { cache_key } => PredictPlanView::Invoke {
            cache_key,
            input: ModelInputView::Image(image->0),
        },
        DispatchDecisionView::Textual { cache_key } => PredictPlanView::Invoke {
            cache_key,
            input: ModelInputView::Text(text->0),
        },
        DispatchDecisionView::NoModel => PredictPlanView::NoModel,
    }
}

/// The text payload as the optional character sequence it carries.
pub open spec fn opt_text_view(t: Option<String>) -> Option<Seq<char>> {
    match t {
        Some(s) => Some(s@),
        None => None,
    }
}

/// The image payload as the optional byte sequence it carries.
pub open spec fn opt_image_view(b: Option<Vec<u8>>) -> Option<Seq<u8>> {
    match b {
        Some(v) => Some(v@),
        None => None,
    }
}

/// Turns a parsed envelope and the payloads into the plan the dispatch
/// priority calls for.
pub fn plan_predict(req: &ClipRequest, text: Option<String>, image: Option<Vec<u8>>) -> (p:
    PredictPlan)
    ensures
        p@ == spec_plan(req@, opt_text_view(text), opt_image_view(image)),
{
    if image.is_some() && req.clip.visual.is_some() {
        let cache_key = match &req.clip.visual {
            Some(v) => v.model_name.clone(),
            None => String::new(),
        };
        return PredictPlan::Invoke { cache_key, input: ModelInput::Image(image.unwrap()) };
    }
    if text.is_some() && req.clip.textual.is_some() {
        let cache_key = match &req.clip.textual {
            Some(t) => text_cache_key(&t.model_name),
            None => String::new(),
        };
        return PredictPlan::Invoke { cache_key, input: ModelInput::Text(text.unwrap()) };
    }
    PredictPlan::NoModel
}

/// Handles one inbound request end to end at this layer: an entries text
/// that denotes a well-formed envelope is planned by the dispatch priority,
/// and exactly the malformed ones — bad JSON or a missing required field —
/// answer as a bad request, never as anything else.
pub fn handle_predict(entries: &str, text: Option<String>, image: Option<Vec<u8>>) -> (p:
    PredictPlan)
    ensures
        match crate::envelope::spec_parsed_envelope(entries@) {
            Some(env) => p@ == spec_plan(env, opt_text_view(text), opt_image_view(image)),
            None => p is BadRequest,
        },
{
    match parse_clip_request(entries) {
        Err(details) => PredictPlan::BadRequest { details },
        Ok(req) => plan_predict(&req, text, image),
    }
}

/// The error taxonomy at the service boundary.
#[derive(Clone, Copy, PartialEq, Eq, Structural, Debug)]
pub enum ServiceError {
    /// Bad JSON or a missing required field in the envelope.
    MalformedRequest,
    /// Neither dispatch branch was satisfied.
    NoModelSpecified,
    /// No descriptor is registered under the requested name.
    NotFound,
    /// The descriptor lacks a field its kind requires.
    ConfigError,
    /// The external engine failed to construct the model.
    EngineError,
    /// The external engine failed to process the input.
    ProcessingError,
}

/// The status each error is surfaced with: client errors answer 400, every
/// other failure is conflated into an opaque 500.
pub open spec fn spec_http_status(e: ServiceError) -> u16 {
    match e {
        ServiceError::MalformedRequest => 400,
        ServiceError::NoModelSpecified => 400,
        ServiceError::NotFound => 500,
        ServiceError::ConfigError => 500,
        ServiceError::EngineError => 500,
        ServiceError::ProcessingError => 500,
    }
}

/// Maps a service error to its response status. A malformed envelope or an
/// unsatisfied dispatch always answers 400 and never 500.
pub fn http_status(e: &ServiceError) -> (s: u16)
    ensures
        s == spec_http_status(*e),
        s == 400 <==> (e is MalformedRequest || e is NoModelSpecified),
        s == 400 || s == 500,
{
    match e {
        ServiceError::MalformedRequest => 400,
        ServiceError::NoModelSpecified => 400,
        ServiceError::NotFound => 500,
        ServiceError::ConfigError => 500,
        ServiceError::EngineError => 500,
        ServiceError::ProcessingError => 500,
    }
}

/// How a cache failure is surfaced: the two kinds keep their identity but
/// both answer as server errors.
pub fn service_error_of(e: crate::models::CacheError) -> (s: ServiceError)
    ensures
        e is NotFound ==> s == ServiceError::NotFound,
        e is ConfigError ==> s == ServiceError::ConfigError,
        spec_http_status(s) == 500,
{
    match e {
        crate::models::CacheError::NotFound => ServiceError::NotFound,
        crate::models::CacheError::ConfigError => ServiceError::ConfigError,
    }
}

} // verus!
