//! Laws of the pull machine, proved over its transition function.
//!
//! [`run_view`] gives the trace semantics of a pull: the actions the session
//! emits when fed a sequence of events. The main law,
//! [`lemma_pull_unpacks_layers_in_order`], shows that a successful pull of a
//! well-formed manifest with `N` layers asks the driver for exactly `N`
//! unpacks, one per layer, in manifest order, each preceded by the fetch of
//! that layer's blob.

use vstd::prelude::*;

use crate::errors::PullError;
use crate::gzip::gunzip_of;
use crate::image::ReferenceView;
use crate::json::{json_doc_of, manifest_layers_of, token_of, JsonValue};
use crate::session::{step_view, ActionView, ConfigView, EventView, StateView};
use crate::urls::{blob_url_spec, manifest_url_spec};

verus! {

/// The actions a pull emits when, standing in state `s`, it is fed `events`
/// one at a time.
pub open spec fn run_view(
    cfg: ConfigView,
    img: ReferenceView,
    s: StateView,
    events: Seq<EventView>,
) -> Seq<ActionView>
    decreases events.len(),
{
    if events.len() == 0 {
        Seq::empty()
    } else {
        let sa = step_view(cfg, img, s, events[0]);
        seq![sa.1] + run_view(cfg, img, sa.0, events.subrange(1, events.len() as int))
    }
}

/// The events of a successful blob phase: for each remaining layer, the
/// fetched blob body, then the successful unpack.
pub open spec fn blob_events(bodies: Seq<Seq<u8>>) -> Seq<EventView>
    decreases bodies.len(),
{
    if bodies.len() == 0 {
        Seq::empty()
    } else {
        seq![EventView::FetchOk { body: bodies[0] }, EventView::UnpackOk] + blob_events(
            bodies.subrange(1, bodies.len() as int),
        )
    }
}

/// The actions of a successful blob phase standing at layer `next`: unpack
/// the decompressed blob, then either fetch the next layer's blob or stop
/// successfully after the last one.
pub open spec fn blob_actions(
    hub: Seq<char>,
    name: Seq<char>,
    token: Seq<char>,
    layers: Seq<Seq<char>>,
    next: int,
    tars: Seq<Seq<u8>>,
) -> Seq<ActionView>
    decreases tars.len(),
{
    if tars.len() == 0 {
        Seq::empty()
    } else if next + 1 < layers.len() {
        seq![
            ActionView::Unpack { tar: tars[0] },
            ActionView::Fetch {
                url: blob_url_spec(hub, name, layers[next + 1]),
                bearer: Some(token),
            },
        ] + blob_actions(hub, name, token, layers, next + 1, tars.subrange(1, tars.len() as int))
    } else {
        seq![
            ActionView::Unpack { tar: tars[0] },
            ActionView::Stop { result: Ok(()) },
        ]
    }
}

/// The unpack actions among `actions`, in order.
pub open spec fn unpacks_of(actions: Seq<ActionView>) -> Seq<Seq<u8>>
    decreases actions.len(),
{
    if actions.len() == 0 {
        Seq::empty()
    } else {
        let rest = unpacks_of(actions.subrange(1, actions.len() as int));
        match actions[0] {
            ActionView::Unpack { tar } => seq![tar] + rest,
            _ => rest,
        }
    }
}

proof fn lemma_run_view_unfold(
    cfg: ConfigView,
    img: ReferenceView,
    s: StateView,
    events: Seq<EventView>,
)
    requires
        events.len() > 0,
    ensures
        run_view(cfg, img, s, events) == seq![step_view(cfg, img, s, events[0]).1] + run_view(
            cfg,
            img,
            step_view(cfg, img, s, events[0]).0,
            events.subrange(1, events.len() as int),
        ),
{
}

proof fn lemma_unpacks_of_concat(a: Seq<ActionView>, b: Seq<ActionView>)
    ensures
        unpacks_of(a + b) == unpacks_of(a) + unpacks_of(b),
    decreases a.len(),
{
    if a.len() == 0 {
        assert(a + b =~= b);
        assert(unpacks_of(a) + unpacks_of(b) =~= unpacks_of(b));
    } else {
        lemma_unpacks_of_concat(a.subrange(1, a.len() as int), b);
        assert((a + b).subrange(1, (a + b).len() as int) =~= a.subrange(1, a.len() as int) + b);
        assert((a + b)[0] == a[0]);
        match a[0] {
            ActionView::Unpack { tar } => {
                assert(seq![tar] + (unpacks_of(a.subrange(1, a.len() as int)) + unpacks_of(b))
                    =~= (seq![tar] + unpacks_of(a.subrange(1, a.len() as int))) + unpacks_of(b));
            },
            _ => {},
        }
    }
}

/// A successful blob phase unpacks exactly the remaining layers' blobs.
pub proof fn lemma_blob_actions_unpack_each_layer_once(
    hub: Seq<char>,
    name: Seq<char>,
    token: Seq<char>,
    layers: Seq<Seq<char>>,
    next: int,
    tars: Seq<Seq<u8>>,
)
    requires
        0 <= next < layers.len(),
        tars.len() == layers.len() - next,
    ensures
        unpacks_of(blob_actions(hub, name, token, layers, next, tars)) == tars,
    decreases tars.len(),
{
    let actions = blob_actions(hub, name, token, layers, next, tars);
    if next + 1 < layers.len() {
        let head = seq![
            ActionView::Unpack { tar: tars[0] },
            ActionView::Fetch {
                url: blob_url_spec(hub, name, layers[next + 1]),
                bearer: Some(token),
            },
        ];
        let tail = blob_actions(hub, name, token, layers, next + 1, tars.subrange(1, tars.len() as int));
        lemma_unpacks_of_concat(head, tail);
        lemma_blob_actions_unpack_each_layer_once(
            hub,
            name,
            token,
            layers,
            next + 1,
            tars.subrange(1, tars.len() as int),
        );
        let fetch = ActionView::Fetch {
            url: blob_url_spec(hub, name, layers[next + 1]),
            bearer: Some(token),
        };
        assert(head.subrange(1, 2) =~= seq![fetch]);
        assert(seq![fetch].subrange(1, 1) =~= Seq::<ActionView>::empty());
        assert(unpacks_of(Seq::<ActionView>::empty()) =~= Seq::<Seq<u8>>::empty());
        assert(unpacks_of(seq![fetch]) =~= Seq::<Seq<u8>>::empty());
        assert(unpacks_of(head) =~= seq![tars[0]]);
        assert(seq![tars[0]] + tars.subrange(1, tars.len() as int) =~= tars);
    } else {
        assert(tars.len() == 1);
        let stop = ActionView::Stop { result: Ok::<(), PullError>(()) };
        assert(actions.subrange(1, 2) =~= seq![stop]);
        assert(seq![stop].subrange(1, 1) =~= Seq::<ActionView>::empty());
        assert(unpacks_of(Seq::<ActionView>::empty()) =~= Seq::<Seq<u8>>::empty());
        assert(unpacks_of(seq![stop]) =~= Seq::<Seq<u8>>::empty());
        assert(unpacks_of(actions) =~= seq![tars[0]]);
        assert(seq![tars[0]] =~= tars);
    }
}

/// From blob state `next`, feeding one successful fetch-and-unpack pair per
/// remaining layer runs the blob phase to completion, emitting exactly the
/// actions of [`blob_actions`].
proof fn lemma_blob_run(
    cfg: ConfigView,
    img: ReferenceView,
    token: Seq<char>,
    layers: Seq<Seq<char>>,
    next: int,
    bodies: Seq<Seq<u8>>,
    tars: Seq<Seq<u8>>,
)
    requires
        0 <= next < layers.len(),
        bodies.len() == layers.len() - next,
        tars.len() == bodies.len(),
        forall|k: int| 0 <= k < bodies.len() ==> #[trigger] gunzip_of(bodies[k]) == Some(tars[k]),
    ensures
        run_view(cfg, img, StateView::FetchingBlob { token, layers, next }, blob_events(bodies))
            == blob_actions(cfg.hub, img.name, token, layers, next, tars),
    decreases bodies.len(),
{
    let events = blob_events(bodies);
    let rest_bodies = bodies.subrange(1, bodies.len() as int);
    let rest_tars = tars.subrange(1, tars.len() as int);
    let pair = seq![EventView::FetchOk { body: bodies[0] }, EventView::UnpackOk];
    assert(events == pair + blob_events(rest_bodies));
    assert(events[0] == EventView::FetchOk { body: bodies[0] });
    assert(gunzip_of(bodies[0]) == Some(tars[0]));

    let s0 = StateView::FetchingBlob { token, layers, next };
    let sa0 = step_view(cfg, img, s0, events[0]);
    assert(sa0 == (
        StateView::Unpacking { token, layers, next },
        ActionView::Unpack { tar: tars[0] },
    ));
    let events1 = events.subrange(1, events.len() as int);
    assert(events1 =~= seq![EventView::UnpackOk] + blob_events(rest_bodies));
    assert(events1[0] == EventView::UnpackOk);
    let sa1 = step_view(cfg, img, sa0.0, events1[0]);
    let events2 = events1.subrange(1, events1.len() as int);
    assert(events2 =~= blob_events(rest_bodies));

    lemma_run_view_unfold(cfg, img, s0, events);
    lemma_run_view_unfold(cfg, img, sa0.0, events1);
    assert(run_view(cfg, img, s0, events) == seq![sa0.1] + (seq![sa1.1] + run_view(
        cfg,
        img,
        sa1.0,
        events2,
    )));
    if next + 1 < layers.len() {
        assert(sa1 == (
            StateView::FetchingBlob { token, layers, next: next + 1 },
            ActionView::Fetch {
                url: blob_url_spec(cfg.hub, img.name, layers[next + 1]),
                bearer: Some(token),
            },
        ));
        assert(forall|k: int|
            0 <= k < rest_bodies.len() ==> #[trigger] gunzip_of(rest_bodies[k]) == Some(
                rest_tars[k],
            ));
        lemma_blob_run(cfg, img, token, layers, next + 1, rest_bodies, rest_tars);
        assert(run_view(cfg, img, sa1.0, events2) == blob_actions(
            cfg.hub,
            img.name,
            token,
            layers,
            next + 1,
            rest_tars,
        ));
        assert(run_view(cfg, img, s0, events) =~= blob_actions(
            cfg.hub,
            img.name,
            token,
            layers,
            next,
            tars,
        ));
    } else {
        assert(bodies.len() == 1);
        assert(rest_bodies.len() == 0);
        assert(sa1 == (StateView::Complete, ActionView::Stop { result: Ok::<(), PullError>(()) }));
        assert(events2.len() == 0);
        assert(run_view(cfg, img, sa1.0, events2) == Seq::<ActionView>::empty());
        assert(run_view(cfg, img, s0, events) =~= blob_actions(
            cfg.hub,
            img.name,
            token,
            layers,
            next,
            tars,
        ));
    }
}

/// For a well-formed manifest with `N` layers, a successful pull invokes the
/// unpacker exactly `N` times, in manifest order: after the token response,
/// the session fetches the manifest, then for each layer `k` in order it
/// fetches layer `k`'s blob and unpacks that blob's decompressed bytes, and
/// it stops successfully after the last layer.
pub proof fn lemma_pull_unpacks_layers_in_order(
    cfg: ConfigView,
    img: ReferenceView,
    token_body: Seq<u8>,
    manifest_body: Seq<u8>,
    bodies: Seq<Seq<u8>>,
    tars: Seq<Seq<u8>>,
    tdoc: JsonValue,
    mdoc: JsonValue,
    token: Seq<char>,
    layers: Seq<Seq<char>>,
)
    requires
        json_doc_of(token_body) == Some(tdoc),
        token_of(tdoc) == Some(token),
        json_doc_of(manifest_body) == Some(mdoc),
        manifest_layers_of(mdoc) == Ok::<Seq<Seq<char>>, PullError>(layers),
        layers.len() > 0,
        bodies.len() == layers.len(),
        tars.len() == layers.len(),
        forall|k: int| 0 <= k < bodies.len() ==> #[trigger] gunzip_of(bodies[k]) == Some(tars[k]),
    ensures
        run_view(
            cfg,
            img,
            StateView::FetchingToken,
            seq![
                EventView::FetchOk { body: token_body },
                EventView::FetchOk { body: manifest_body },
            ] + blob_events(bodies),
        ) == seq![
            ActionView::Fetch {
                url: manifest_url_spec(cfg.hub, img.name, img.tag),
                bearer: Some(token),
            },
            ActionView::Fetch { url: blob_url_spec(cfg.hub, img.name, layers[0]), bearer: Some(token) },
        ] + blob_actions(cfg.hub, img.name, token, layers, 0, tars),
        unpacks_of(
            run_view(
                cfg,
                img,
                StateView::FetchingToken,
                seq![
                    EventView::FetchOk { body: token_body },
                    EventView::FetchOk { body: manifest_body },
                ] + blob_events(bodies),
            ),
        ) == tars,
{
    let prefix = seq![
        EventView::FetchOk { body: token_body },
        EventView::FetchOk { body: manifest_body },
    ];
    let events = prefix + blob_events(bodies);
    assert(events[0] == EventView::FetchOk { body: token_body });
    let sa0 = step_view(cfg, img, StateView::FetchingToken, events[0]);
    assert(sa0 == (
        StateView::FetchingManifest { token },
        ActionView::Fetch {
            url: manifest_url_spec(cfg.hub, img.name, img.tag),
            bearer: Some(token),
        },
    ));
    let events1 = events.subrange(1, events.len() as int);
    assert(events1[0] == EventView::FetchOk { body: manifest_body });
    let sa1 = step_view(cfg, img, sa0.0, events1[0]);
    assert(sa1 == (
        StateView::FetchingBlob { token, layers, next: 0 },
        ActionView::Fetch { url: blob_url_spec(cfg.hub, img.name, layers[0]), bearer: Some(token) },
    ));
    let events2 = events1.subrange(1, events1.len() as int);
    assert(events2 =~= blob_events(bodies));
    lemma_blob_run(cfg, img, token, layers, 0, bodies, tars);
    let head = seq![sa0.1, sa1.1];
    let tail = blob_actions(cfg.hub, img.name, token, layers, 0, tars);
    let run = run_view(cfg, img, StateView::FetchingToken, events);
    lemma_run_view_unfold(cfg, img, StateView::FetchingToken, events);
    lemma_run_view_unfold(cfg, img, sa0.0, events1);
    assert(run_view(cfg, img, sa1.0, events2) == tail);
    assert(run == seq![sa0.1] + (seq![sa1.1] + tail));
    assert(run =~= head + tail);

    lemma_unpacks_of_concat(head, tail);
    lemma_blob_actions_unpack_each_layer_once(cfg.hub, img.name, token, layers, 0, tars);
    assert(head.subrange(1, 2) =~= seq![sa1.1]);
    assert(head.subrange(1, 2).subrange(1, 1) =~= Seq::<ActionView>::empty());
    assert(unpacks_of(Seq::<ActionView>::empty()) =~= Seq::<Seq<u8>>::empty());
    assert(unpacks_of(seq![sa1.1]) =~= Seq::<Seq<u8>>::empty());
    assert(unpacks_of(head) =~= Seq::<Seq<u8>>::empty());
    assert(unpacks_of(run) =~= tars);
}

} // verus!
