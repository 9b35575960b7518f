//! The pull operation as a state machine.
//!
//! The library decides; a thin driver performs the I/O. [`pull_image`] parses
//! the image reference and issues the first action (fetch the auth token);
//! the driver performs each action and feeds the outcome back through
//! [`step`], which returns the next action. The machine visits token,
//! manifest and blobs strictly in order; any failure is fatal and the pull
//! stops with the error that caused it.

use vstd::prelude::*;

use crate::errors::PullError;
use crate::gzip::{gunzip_blob, gunzip_of};
use crate::image::{parse_image_reference, parse_reference_spec, ImageReference, ReferenceView};
use crate::json::{
    extract_layers, extract_token, json_doc_of, manifest_layers_of, parse_document, token_of,
};
use crate::urls::{
    blob_url, blob_url_spec, manifest_url, manifest_url_spec, token_url, token_url_spec,
};

verus! {

/// The registry endpoints one pull talks to.
pub struct RegistryConfig {
    pub auth: String,
    pub registry: String,
    pub hub: String,
}

/// The view of a registry configuration.
pub struct ConfigView {
    pub auth: Seq<char>,
    pub registry: Seq<char>,
    pub hub: Seq<char>,
}

impl View for RegistryConfig {
    type V = ConfigView;

    open spec fn view(&self) -> ConfigView {
        ConfigView { auth: self.auth@, registry: self.registry@, hub: self.hub@ }
    }
}

/// Where a pull stands: which response it is waiting for.
pub enum PullState {
    /// Waiting for the token response.
    FetchingToken,
    /// Waiting for the manifest response.
    FetchingManifest { token: String },
    /// Waiting for the blob of `layers[next]`.
    FetchingBlob { token: String, layers: Vec<String>, next: usize },
    /// Waiting for the unpack of `layers[next]` to finish.
    Unpacking { token: String, layers: Vec<String>, next: usize },
    /// Every layer is unpacked.
    Complete,
    /// The pull failed; the error is fatal.
    Failed { error: PullError },
}

/// The view of a pull state.
pub enum StateView {
    FetchingToken,
    FetchingManifest { token: Seq<char> },
    FetchingBlob { token: Seq<char>, layers: Seq<Seq<char>>, next: int },
    Unpacking { token: Seq<char>, layers: Seq<Seq<char>>, next: int },
    Complete,
    Failed { error: PullError },
}

impl View for PullState {
    type V = StateView;

    open spec fn view(&self) -> StateView {
        match self {
            PullState::FetchingToken => StateView::FetchingToken,
            PullState::FetchingManifest { token } => StateView::FetchingManifest {
                token: token@,
            },
            PullState::FetchingBlob { token, layers, next } => StateView::FetchingBlob {
                token: token@,
                layers: layers.deep_view(),
                next: *next as int,
            },
            PullState::Unpacking { token, layers, next } => StateView::Unpacking {
                token: token@,
                layers: layers.deep_view(),
                next: *next as int,
            },
            PullState::Complete => StateView::Complete,
            PullState::Failed { error } => StateView::Failed { error: *error },
        }
    }
}

/// One pull in progress: the endpoints, the parsed reference, and the state.
pub struct PullSession {
    pub config: RegistryConfig,
    pub image: ImageReference,
    pub state: PullState,
}

/// What the driver is asked to do next.
pub enum PullAction {
    /// Perform a blocking HTTP GET, with the bearer token when one is given.
    Fetch { url: String, bearer: Option<String> },
    /// Extract this decompressed tar archive onto the target directory,
    /// preserving permission bits and extended attributes.
    Unpack { tar: Vec<u8> },
    /// The pull is over: it succeeded, or failed with this error.
    Stop { result: Result<(), PullError> },
}

/// The view of an action.
pub enum ActionView {
    Fetch { url: Seq<char>, bearer: Option<Seq<char>> },
    Unpack { tar: Seq<u8> },
    Stop { result: Result<(), PullError> },
}

impl View for PullAction {
    type V = ActionView;

    open spec fn view(&self) -> ActionView {
        match self {
            PullAction::Fetch { url, bearer } => ActionView::Fetch {
                url: url@,
                bearer: match bearer {
                    Some(t) => Some(t@),
                    None => None,
                },
            },
            PullAction::Unpack { tar } => ActionView::Unpack { tar: tar@ },
            PullAction::Stop { result } => ActionView::Stop { result: *result },
        }
    }
}

/// What the driver reports back: the outcome of the last action.
pub enum PullEvent {
    /// The fetch returned this response body.
    FetchOk { body: Vec<u8> },
    /// The fetch failed (transport or connection error).
    FetchFailed,
    /// The unpack finished.
    UnpackOk,
    /// The unpack failed (malformed tar or write error).
    UnpackFailed,
}

/// The view of an event.
pub enum EventView {
    FetchOk { body: Seq<u8> },
    FetchFailed,
    UnpackOk,
    UnpackFailed,
}

impl View for PullEvent {
    type V = EventView;

    open spec fn view(&self) -> EventView {
        match self {
            PullEvent::FetchOk { body } => EventView::FetchOk { body: body@ },
            PullEvent::FetchFailed => EventView::FetchFailed,
            PullEvent::UnpackOk => EventView::UnpackOk,
            PullEvent::UnpackFailed => EventView::UnpackFailed,
        }
    }
}

/// A well-formed state: the layer index stays inside the layer list.
pub open spec fn state_wf(s: StateView) -> bool {
    match s {
        StateView::FetchingBlob { layers, next, .. } => 0 <= next < layers.len(),
        StateView::Unpacking { layers, next, .. } => 0 <= next < layers.len(),
        _ => true,
    }
}

/// Which events can answer which state: fetch outcomes answer the three
/// fetching states, unpack outcomes answer the unpacking state, and a
/// finished pull takes no further event.
pub open spec fn event_fits(s: StateView, e: EventView) -> bool {
    match s {
        StateView::FetchingToken => e is FetchOk || e is FetchFailed,
        StateView::FetchingManifest { .. } => e is FetchOk || e is FetchFailed,
        StateView::FetchingBlob { .. } => e is FetchOk || e is FetchFailed,
        StateView::Unpacking { .. } => e is UnpackOk || e is UnpackFailed,
        StateView::Complete => false,
        StateView::Failed { .. } => false,
    }
}

/// A failed pull: the state records the error and the driver is told to
/// stop with it.
pub open spec fn fail_view(e: PullError) -> (StateView, ActionView) {
    (StateView::Failed { error: e }, ActionView::Stop { result: Err(e) })
}

/// The transition function of a pull: from a state and the event answering
/// it, the next state and the next action.
pub open spec fn step_view(cfg: ConfigView, img: ReferenceView, s: StateView, e: EventView) -> (
    StateView,
    ActionView,
)
    recommends
        state_wf(s),
        event_fits(s, e),
{
    match (s, e) {
        (StateView::FetchingToken, EventView::FetchOk { body }) => match json_doc_of(body) {
            None => fail_view(PullError::Decode),
            Some(doc) => match token_of(doc) {
                None => fail_view(PullError::Auth),
                Some(t) => (
                    StateView::FetchingManifest { token: t },
                    ActionView::Fetch {
                        url: manifest_url_spec(cfg.hub, img.name, img.tag),
                        bearer: Some(t),
                    },
                ),
            },
        },
        (StateView::FetchingManifest { token }, EventView::FetchOk { body }) => match json_doc_of(
            body,
        ) {
            None => fail_view(PullError::Decode),
            Some(doc) => match manifest_layers_of(doc) {
                Err(e) => fail_view(e),
                Ok(layers) => if layers.len() == 0 {
                    (StateView::Complete, ActionView::Stop { result: Ok(()) })
                } else {
                    (
                        StateView::FetchingBlob { token, layers, next: 0 },
                        ActionView::Fetch {
                            url: blob_url_spec(cfg.hub, img.name, layers[0]),
                            bearer: Some(token),
                        },
                    )
                },
            },
        },
        (StateView::FetchingBlob { token, layers, next }, EventView::FetchOk { body }) => match
            gunzip_of(body) {
            None => fail_view(PullError::CorruptBlob),
            Some(tar) => (
                StateView::Unpacking { token, layers, next },
                ActionView::Unpack { tar },
            ),
        },
        (StateView::Unpacking { token, layers, next }, EventView::UnpackOk) => if next + 1
            < layers.len() {
            (
                StateView::FetchingBlob { token, layers, next: next + 1 },
                ActionView::Fetch {
                    url: blob_url_spec(cfg.hub, img.name, layers[next + 1]),
                    bearer: Some(token),
                },
            )
        } else {
            (StateView::Complete, ActionView::Stop { result: Ok(()) })
        },
        (StateView::Unpacking { .. }, EventView::UnpackFailed) => fail_view(PullError::Unpack),
        (_, EventView::FetchFailed) => fail_view(PullError::Network),
        _ => (s, ActionView::Stop { result: Ok(()) }),
    }
}

/// Begin pulling `image` (a `name[:tag]` reference) from the configured
/// registry: parse the reference and issue the token fetch that starts the
/// handshake.
pub fn pull_image(config: RegistryConfig, image: &str) -> (r: Result<
    (PullSession, PullAction),
    PullError,
>)
    ensures
        match r {
            Ok(sa) => {
                &&& parse_reference_spec(image@) == Some(sa.0.image@)
                &&& sa.0.config@ == config@
                &&& sa.0.state@ == StateView::FetchingToken
                &&& state_wf(sa.0.state@)
                &&& sa.1@ == (ActionView::Fetch {
                    url: token_url_spec(config@.auth, config@.registry, sa.0.image@.name),
                    bearer: None,
                })
            },
            Err(e) => parse_reference_spec(image@) is None && e == PullError::Reference,
        },
{
    let reference = match parse_image_reference(image) {
        Ok(ir) => ir,
        Err(e) => {
            return Err(e);
        },
    };
    let url = token_url(config.auth.as_str(), config.registry.as_str(), reference.name.as_str());
    let session = PullSession { config, image: reference, state: PullState::FetchingToken };
    Ok((session, PullAction::Fetch { url, bearer: None }))
}

/// Advance the pull by one event: consume the outcome of the last action and
/// return the session with the next action. The transition taken is exactly
/// [`step_view`] of the old state and the event.
pub fn step(session: PullSession, event: PullEvent) -> (r: (PullSession, PullAction))
    requires
        state_wf(session.state@),
        event_fits(session.state@, event@),
    ensures
        r.0.config@ == session.config@,
        r.0.image@ == session.image@,
        state_wf(r.0.state@),
        (r.0.state@, r.1@) == step_view(session.config@, session.image@, session.state@, event@),
{
    let PullSession { config, image, state } = session;
    match (state, event) {
        (PullState::FetchingToken, PullEvent::FetchOk { body }) => {
            match parse_document(body.as_slice()) {
                Err(e) => fail(config, image, e),
                Ok(doc) => match extract_token(&doc) {
                    Err(e) => fail(config, image, e),
                    Ok(token) => {
                        let url = manifest_url(
                            config.hub.as_str(),
                            image.name.as_str(),
                            image.tag.as_str(),
                        );
                        let bearer = token.clone();
                        (
                            PullSession {
                                config,
                                image,
                                state: PullState::FetchingManifest { token },
                            },
                            PullAction::Fetch { url, bearer: Some(bearer) },
                        )
                    },
                },
            }
        },
        (PullState::FetchingManifest { token }, PullEvent::FetchOk { body }) => {
            match parse_document(body.as_slice()) {
                Err(e) => fail(config, image, e),
                Ok(doc) => match extract_layers(&doc) {
                    Err(e) => fail(config, image, e),
                    Ok(layers) => {
                        if layers.len() == 0 {
                            (
                                PullSession { config, image, state: PullState::Complete },
                                PullAction::Stop { result: Ok(()) },
                            )
                        } else {
                            let url = blob_url(
                                config.hub.as_str(),
                                image.name.as_str(),
                                layers[0].as_str(),
                            );
                            let bearer = token.clone();
                            proof {
                                assert(layers.deep_view()[0] == layers@[0]@);
                            }
                            (
                                PullSession {
                                    config,
                                    image,
                                    state: PullState::FetchingBlob { token, layers, next: 0 },
                                },
                                PullAction::Fetch { url, bearer: Some(bearer) },
                            )
                        }
                    },
                },
            }
        },
        (PullState::FetchingBlob { token, layers, next }, PullEvent::FetchOk { body }) => {
            match gunzip_blob(body.as_slice()) {
                Err(e) => fail(config, image, e),
                Ok(tar) => (
                    PullSession {
                        config,
                        image,
                        state: PullState::Unpacking { token, layers, next },
                    },
                    PullAction::Unpack { tar },
                ),
            }
        },
        (PullState::Unpacking { token, layers, next }, PullEvent::UnpackOk) => {
            let n = layers.len();
            proof {
                assert(layers.deep_view().len() == layers@.len());
                assert(next < layers@.len());
            }
            if next + 1 < n {
                let url = blob_url(
                    config.hub.as_str(),
                    image.name.as_str(),
                    layers[next + 1].as_str(),
                );
                let bearer = token.clone();
                proof {
                    assert(layers.deep_view()[next + 1 as int] == layers@[next + 1 as int]@);
                }
                (
                    PullSession {
                        config,
                        image,
                        state: PullState::FetchingBlob { token, layers, next: next + 1 },
                    },
                    PullAction::Fetch { url, bearer: Some(bearer) },
                )
            } else {
                (
                    PullSession { config, image, state: PullState::Complete },
                    PullAction::Stop { result: Ok(()) },
                )
            }
        },
        (PullState::Unpacking { .. }, PullEvent::UnpackFailed) => fail(
            config,
            image,
            PullError::Unpack,
        ),
        (_, PullEvent::FetchFailed) => fail(config, image, PullError::Network),
        (state, _) => {
            proof {
                assert(false);
            }
            (PullSession { config, image, state }, PullAction::Stop { result: Ok(()) })
        },
    }
}

/// End a pull on a fatal error.
fn fail(config: RegistryConfig, image: ImageReference, error: PullError) -> (r: (
    PullSession,
    PullAction,
))
    ensures
        r.0.config@ == config@,
        r.0.image@ == image@,
        (r.0.state@, r.1@) == fail_view(error),
{
    (
        PullSession { config, image, state: PullState::Failed { error } },
        PullAction::Stop { result: Err(error) },
    )
}

} // verus!
