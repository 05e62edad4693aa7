//! From a display list to the meshes that the GPU is handed: each batch of
//! triangles with the transformation and the clip that its place in the list
//! gives it.
//!
//! Layers are in the coordinates of the window: a layer shows what lies in
//! its bounds and in every layer around it, whatever transformation it is
//! opened under. Transformations nest: what is drawn goes through the
//! innermost first.

use vstd::prelude::*;
use crate::geometry::{lemma_overlap_within, lemma_within_transitive, Point, Rectangle};
use crate::mesh::Mesh;
use crate::render::{
    after_command, after_commands, balanced, draws_well_formed, Buffers, Command, Scope,
};
use crate::transformation::{Affine, Transformation};

verus! {

/// Why a display list cannot be turned into meshes.
#[derive(Clone, Copy, Debug, PartialEq, Eq, Structural)]
pub enum BatchError {
    /// A scope is closed that is not the innermost open one, or a scope is
    /// left open at the end.
    Unbalanced,
    /// Nested transformations make a number that does not fit 64 bits.
    Overflow,
}

/// What an open scope will put back when it is closed.
#[derive(Clone, Copy, Debug)]
pub enum Saved {
    /// A layer: the clip around it.
    Layer { clip: Option<Rectangle> },
    /// A transformation: the transformation around it.
    Transformation { transformation: Transformation },
}

/// Where the replay of a display list stands.
pub struct Replay<'a> {
    /// The open scopes, outermost first.
    pub open: Seq<Saved>,
    /// The transformation that applies to what is drawn next.
    pub transformation: Transformation,
    /// The region in which what is drawn next shows, if there is one.
    pub clip: Option<Rectangle>,
    /// The meshes so far.
    pub meshes: Seq<Mesh<'a>>,
}

/// The mesh that shows `buffers` through `transformation` within `clip`.
pub open spec fn mesh_of<'a>(transformation: Transformation, clip: Rectangle, buffers: &'a Buffers) -> Mesh<
    'a,
> {
    match buffers {
        Buffers::Solid(buffers) => Mesh::Solid { transformation, buffers, clip_bounds: clip },
        Buffers::Gradient(buffers) => Mesh::Gradient { transformation, buffers, clip_bounds: clip },
    }
}

/// The meshes that show `batches`, in their order.
pub open spec fn meshes_of<'a>(
    transformation: Transformation,
    clip: Rectangle,
    batches: Seq<Buffers>,
) -> Seq<Mesh<'a>> {
    Seq::new(batches.len(), |i: int| mesh_of(transformation, clip, &batches[i]))
}

/// The translation that moves the origin to `origin`.
pub open spec fn placement(origin: Point) -> Transformation {
    Transformation::with_view(Affine::translation(origin.x as int, origin.y as int, 1))
}

impl<'a> Replay<'a> {
    /// The replay before the first command: nothing open, nothing moved, the
    /// viewport to show in.
    pub open spec fn start(viewport: Rectangle) -> Replay<'a> {
        Replay {
            open: Seq::empty(),
            transformation: Transformation::with_view(Affine::identity()),
            clip: if viewport.is_empty() {
                None
            } else {
                Some(viewport)
            },
            meshes: Seq::empty(),
        }
    }

    /// The replay after one more command.
    pub open spec fn step(self, command: &'a Command) -> Result<Replay<'a>, BatchError> {
        match command {
            Command::BeginLayer { bounds } => Ok(
                Replay {
                    open: self.open.push(Saved::Layer { clip: self.clip }),
                    clip: match self.clip {
                        Some(clip) => clip.overlap(*bounds),
                        None => None,
                    },
                    ..self
                },
            ),
            Command::EndLayer => if self.open.len() > 0 && self.open.last() is Layer {
                Ok(Replay { open: self.open.drop_last(), clip: self.open.last()->clip, ..self })
            } else {
                Err(BatchError::Unbalanced)
            },
            Command::BeginTransformation { transformation } => match self.transformation.composed(
                *transformation,
            ) {
                Some(composed) => Ok(
                    Replay {
                        open: self.open.push(
                            Saved::Transformation { transformation: self.transformation },
                        ),
                        transformation: composed,
                        ..self
                    },
                ),
                None => Err(BatchError::Overflow),
            },
            Command::EndTransformation => if self.open.len() > 0 && self.open.last()
                is Transformation {
                Ok(
                    Replay {
                        open: self.open.drop_last(),
                        transformation: self.open.last()->transformation,
                        ..self
                    },
                )
            } else {
                Err(BatchError::Unbalanced)
            },
            Command::Draw { origin, geometry } => match self.clip {
                None => Ok(self),
                Some(clip) => match self.transformation.composed(placement(*origin)) {
                    Some(placed) => Ok(
                        Replay {
                            meshes: self.meshes + meshes_of(placed, clip, geometry.batches@),
                            ..self
                        },
                    ),
                    None => Err(BatchError::Overflow),
                },
            },
        }
    }

    /// The replay after all of `commands`, or the first failure on the way.
    pub open spec fn of(commands: Seq<Command>, viewport: Rectangle) -> Result<Replay<'a>, BatchError>
        decreases commands.len(),
    {
        if commands.len() == 0 {
            Ok(Replay::start(viewport))
        } else {
            match Replay::of(commands.drop_last(), viewport) {
                Ok(replay) => replay.step(&commands.last()),
                Err(error) => Err(error),
            }
        }
    }
}

/// The meshes that `commands` draws in a window that shows `viewport`, or
/// why there are none.
pub open spec fn batched<'a>(commands: Seq<Command>, viewport: Rectangle) -> Result<
    Seq<Mesh<'a>>,
    BatchError,
> {
    match Replay::of(commands, viewport) {
        Ok(replay) => if replay.open.len() == 0 {
            Ok(replay.meshes)
        } else {
            Err(BatchError::Unbalanced)
        },
        Err(error) => Err(error),
    }
}

/// Returns the meshes that `commands` draws in a window that shows
/// `viewport`, in the order in which they are drawn.
pub fn batch<'a>(commands: &'a [Command], viewport: Rectangle) -> (result: Result<
    Vec<Mesh<'a>>,
    BatchError,
>)
    ensures
        match result {
            Ok(meshes) => batched(commands@, viewport) == Ok::<Seq<Mesh<'a>>, BatchError>(meshes@),
            Err(error) => batched(commands@, viewport) == Err::<Seq<Mesh<'a>>, BatchError>(error),
        },
{
    let mut open: Vec<Saved> = Vec::new();
    let mut transformation: Transformation = Transformation::identity();
    let mut clip: Option<Rectangle> = if viewport.width == 0 || viewport.height == 0 {
        None
    } else {
        Some(viewport)
    };
    let mut meshes: Vec<Mesh<'a>> = Vec::new();
    proof {
        transformation.lemma_view_is_faithful();
    }
    let mut i: usize = 0;
    while i < commands.len()
        invariant
            i <= commands@.len(),
            Replay::<'a>::of(commands@.take(i as int), viewport) matches Ok(replay) && replay.open
                == open@ && replay.transformation == transformation && replay.clip == clip
                && replay.meshes == meshes@,
        decreases commands@.len() - i,
    {
        let ghost before = Replay::<'a>::of(commands@.take(i as int), viewport)->Ok_0;
        proof {
            assert(commands@.take(i + 1).drop_last() =~= commands@.take(i as int));
            assert(commands@.take(i + 1).last() == commands@[i as int]);
        }
        match &commands[i] {
            Command::BeginLayer { bounds } => {
                open.push(Saved::Layer { clip });
                clip =
                match clip {
                    Some(current) => current.intersection(bounds),
                    None => None,
                };
            },
            Command::EndLayer => {
                match open.pop() {
                    Some(Saved::Layer { clip: saved }) => {
                        clip = saved;
                    },
                    _ => {
                        proof {
                            lemma_failure_is_kept(commands@, i + 1, viewport);
                        }
                        return Err(BatchError::Unbalanced);
                    },
                }
            },
            Command::BeginTransformation { transformation: inner } => {
                match transformation.compose(inner) {
                    Some(composed) => {
                        open.push(Saved::Transformation { transformation });
                        transformation = composed;
                    },
                    None => {
                        proof {
                            lemma_failure_is_kept(commands@, i + 1, viewport);
                        }
                        return Err(BatchError::Overflow);
                    },
                }
            },
            Command::EndTransformation => {
                match open.pop() {
                    Some(Saved::Transformation { transformation: saved }) => {
                        transformation = saved;
                    },
                    _ => {
                        proof {
                            lemma_failure_is_kept(commands@, i + 1, viewport);
                        }
                        return Err(BatchError::Unbalanced);
                    },
                }
            },
            Command::Draw { origin, geometry } => {
                if let Some(current) = clip {
                    let placing: Transformation = Transformation::translate(origin.x, origin.y);
                    proof {
                        placing.lemma_view_is_faithful();
                    }
                    match transformation.compose(&placing) {
                        Some(placed) => {
                            let ghost drawn = meshes@;
                            let mut j: usize = 0;
                            while j < geometry.batches.len()
                                invariant
                                    j <= geometry.batches@.len(),
                                    meshes@ == drawn + meshes_of(
                                        placed,
                                        current,
                                        geometry.batches@.take(j as int),
                                    ),
                                decreases geometry.batches@.len() - j,
                            {
                                let mesh: Mesh<'a> = match &geometry.batches[j] {
                                    Buffers::Solid(buffers) => Mesh::Solid {
                                        transformation: placed,
                                        buffers,
                                        clip_bounds: current,
                                    },
                                    Buffers::Gradient(buffers) => Mesh::Gradient {
                                        transformation: placed,
                                        buffers,
                                        clip_bounds: current,
                                    },
                                };
                                meshes.push(mesh);
                                proof {
                                    assert(meshes_of(
                                        placed,
                                        current,
                                        geometry.batches@.take(j + 1),
                                    ) =~= meshes_of(
                                        placed,
                                        current,
                                        geometry.batches@.take(j as int),
                                    ).push(mesh));
                                }
                                j = j + 1;
                            }
                            proof {
                                assert(geometry.batches@.take(j as int) =~= geometry.batches@);
                            }
                        },
                        None => {
                            proof {
                                lemma_failure_is_kept(commands@, i + 1, viewport);
                            }
                            return Err(BatchError::Overflow);
                        },
                    }
                }
            },
        }
        i = i + 1;
    }
    proof {
        assert(commands@.take(i as int) =~= commands@);
    }
    if open.len() == 0 {
        Ok(meshes)
    } else {
        Err(BatchError::Unbalanced)
    }
}

/// A replay that has failed stays failed, with the same failure, whatever
/// follows.
pub proof fn lemma_failure_is_kept<'a>(commands: Seq<Command>, k: int, viewport: Rectangle)
    requires
        0 <= k <= commands.len(),
        Replay::<'a>::of(commands.take(k), viewport) is Err,
    ensures
        Replay::<'a>::of(commands, viewport) == Replay::<'a>::of(commands.take(k), viewport),
    decreases commands.len(),
{
    if k == commands.len() {
        assert(commands.take(k) =~= commands);
    } else {
        assert(commands.drop_last().take(k) =~= commands.take(k));
        lemma_failure_is_kept(commands.drop_last(), k, viewport);
    }
}

/// The kind of scope that an entry of the replay's stack stands for.
pub open spec fn kind_of(saved: Saved) -> Scope {
    match saved {
        Saved::Layer { .. } => Scope::Layer,
        Saved::Transformation { .. } => Scope::Transformation,
    }
}

/// The kinds of the scopes that a replay has open, outermost first.
pub open spec fn kinds_of(open: Seq<Saved>) -> Seq<Scope> {
    Seq::new(open.len(), |i: int| kind_of(open[i]))
}

/// A replay opens and closes scopes as the display list says: while it has
/// not failed, its open scopes are those of the list; and it fails for a
/// scope closed out of turn exactly where the list closes one out of turn.
pub proof fn lemma_replay_follows_scopes<'a>(commands: Seq<Command>, viewport: Rectangle)
    ensures
        Replay::<'a>::of(commands, viewport) matches Ok(replay) ==> after_commands(
            Seq::empty(),
            commands,
        ) == Some(kinds_of(replay.open)),
        Replay::<'a>::of(commands, viewport) == Err::<Replay<'a>, BatchError>(BatchError::Unbalanced)
            ==> after_commands(Seq::empty(), commands) is None,
    decreases commands.len(),
{
    if commands.len() == 0 {
        assert(kinds_of(Seq::<Saved>::empty()) =~= Seq::<Scope>::empty());
    } else {
        lemma_replay_follows_scopes(commands.drop_last(), viewport);
        match Replay::<'a>::of(commands.drop_last(), viewport) {
            Ok(before) => {
                let open = kinds_of(before.open);
                match before.step(&commands.last()) {
                    Ok(after) => {
                        assert(after_command(open, commands.last()) == Some(kinds_of(after.open))) by {
                            match commands.last() {
                                Command::BeginLayer { .. } => {
                                    assert(kinds_of(after.open) =~= open.push(Scope::Layer));
                                },
                                Command::BeginTransformation { .. } => {
                                    assert(kinds_of(after.open) =~= open.push(Scope::Transformation));
                                },
                                Command::EndLayer => {
                                    assert(open.last() == kind_of(before.open.last()));
                                    assert(kinds_of(after.open) =~= open.drop_last());
                                },
                                Command::EndTransformation => {
                                    assert(open.last() == kind_of(before.open.last()));
                                    assert(kinds_of(after.open) =~= open.drop_last());
                                },
                                Command::Draw { .. } => {},
                            }
                        }
                    },
                    Err(error) => {
                        if error == BatchError::Unbalanced {
                            if before.open.len() > 0 {
                                assert(open.last() == kind_of(before.open.last()));
                            }
                        }
                    },
                }
            },
            Err(_) => {},
        }
    }
}

/// A display list that is turned into meshes is balanced.
pub proof fn lemma_batched_is_balanced<'a>(commands: Seq<Command>, viewport: Rectangle)
    requires
        batched(commands, viewport) is Ok,
    ensures
        balanced(commands),
{
    lemma_replay_follows_scopes(commands, viewport);
    let replay = Replay::<'a>::of(commands, viewport)->Ok_0;
    assert(kinds_of(replay.open) =~= Seq::<Scope>::empty());
}

/// A balanced display list is turned into meshes unless its
/// transformations overflow: it never fails for its scopes.
pub proof fn lemma_balanced_is_batched<'a>(commands: Seq<Command>, viewport: Rectangle)
    requires
        balanced(commands),
    ensures
        batched(commands, viewport) is Ok || batched(commands, viewport) == Err::<
            Seq<Mesh<'a>>,
            BatchError,
        >(BatchError::Overflow),
{
    lemma_replay_follows_scopes(commands, viewport);
    match Replay::<'a>::of(commands, viewport) {
        Ok(replay) => {
            assert(kinds_of(replay.open).len() == replay.open.len());
        },
        Err(_) => {},
    }
}

/// Whether a replay keeps to `region`: whatever it shows next, whatever it
/// will show once scopes above the first `depth` are closed, and every mesh
/// from the one numbered `from` on.
pub open spec fn confined(replay: Replay, region: Rectangle, from: int, depth: int) -> bool {
    &&& 0 <= depth <= replay.open.len()
    &&& replay.clip matches Some(clip) ==> clip.within(region) && !clip.is_empty()
    &&& forall|i: int|
        depth <= i < replay.open.len() ==> ((#[trigger] replay.open[i]) matches Saved::Layer {
            clip: Some(clip),
        } ==> clip.within(region) && !clip.is_empty())
    &&& forall|k: int|
        from <= k < replay.meshes.len() ==> (#[trigger] replay.meshes[k]).spec_clip_bounds().within(
            region,
        )
}

/// A replay that keeps to a region keeps to it after one more command,
/// unless the command closes one of the first `depth` scopes.
pub proof fn lemma_step_stays_confined<'a>(
    replay: Replay<'a>,
    command: &'a Command,
    region: Rectangle,
    from: int,
    depth: int,
)
    requires
        confined(replay, region, from, depth),
        0 <= from <= replay.meshes.len(),
        replay.step(command) is Ok,
        replay.step(command)->Ok_0.open.len() >= depth,
    ensures
        confined(replay.step(command)->Ok_0, region, from, depth),
{
    let after = replay.step(command)->Ok_0;
    match *command {
        Command::BeginLayer { bounds } => {
            assert(after.open == replay.open.push(Saved::Layer { clip: replay.clip }));
            if let Some(clip) = replay.clip {
                lemma_overlap_within(clip, bounds);
                if let Some(common) = clip.overlap(bounds) {
                    lemma_within_transitive(common, clip, region);
                }
            }
            assert forall|i: int| depth <= i < after.open.len() implies ((
            #[trigger] after.open[i]) matches Saved::Layer { clip: Some(clip) } ==> clip.within(region)
                && !clip.is_empty()) by {
                if i < replay.open.len() {
                    assert(after.open[i] == replay.open[i]);
                }
            }
        },
        Command::EndLayer => {
            assert(after.open == replay.open.drop_last());
            assert(replay.open[replay.open.len() - 1] == replay.open.last());
            assert forall|i: int| depth <= i < after.open.len() implies ((
            #[trigger] after.open[i]) matches Saved::Layer { clip: Some(clip) } ==> clip.within(region)
                && !clip.is_empty()) by {
                assert(after.open[i] == replay.open[i]);
            }
        },
        Command::BeginTransformation { transformation } => {
            assert(after.open == replay.open.push(
                Saved::Transformation { transformation: replay.transformation },
            ));
            assert forall|i: int| depth <= i < after.open.len() implies ((
            #[trigger] after.open[i]) matches Saved::Layer { clip: Some(clip) } ==> clip.within(region)
                && !clip.is_empty()) by {
                if i < replay.open.len() {
                    assert(after.open[i] == replay.open[i]);
                }
            }
        },
        Command::EndTransformation => {
            assert(after.open == replay.open.drop_last());
            assert forall|i: int| depth <= i < after.open.len() implies ((
            #[trigger] after.open[i]) matches Saved::Layer { clip: Some(clip) } ==> clip.within(region)
                && !clip.is_empty()) by {
                assert(after.open[i] == replay.open[i]);
            }
        },
        Command::Draw { origin, geometry } => {
            assert(after.open == replay.open);
            assert forall|k: int| from <= k < after.meshes.len() implies (
            #[trigger] after.meshes[k]).spec_clip_bounds().within(region) by {
                if k < replay.meshes.len() {
                    assert(after.meshes[k] == replay.meshes[k]);
                }
            }
        },
    }
}

/// Every mesh is clipped to the viewport.
pub proof fn lemma_meshes_show_in_viewport<'a>(commands: Seq<Command>, viewport: Rectangle)
    ensures
        Replay::<'a>::of(commands, viewport) matches Ok(replay) ==> confined(replay, viewport, 0, 0),
        batched(commands, viewport) matches Ok(meshes) ==> forall|k: int|
            0 <= k < meshes.len() ==> (#[trigger] meshes[k]).spec_clip_bounds().within(viewport),
    decreases commands.len(),
{
    if commands.len() > 0 {
        lemma_meshes_show_in_viewport(commands.drop_last(), viewport);
        if let Ok(before) = Replay::<'a>::of(commands.drop_last(), viewport) {
            if before.step(&commands.last()) is Ok {
                lemma_step_stays_confined(before, &commands.last(), viewport, 0, 0);
            }
        }
    }
}

/// Well-formed geometry makes well-formed meshes: where every index of what
/// the display list draws names a vertex that is there, so does every index
/// of every mesh.
pub proof fn lemma_meshes_are_well_formed<'a>(commands: Seq<Command>, viewport: Rectangle)
    requires
        draws_well_formed(commands),
    ensures
        Replay::<'a>::of(commands, viewport) matches Ok(replay) ==> forall|k: int|
            0 <= k < replay.meshes.len() ==> (#[trigger] replay.meshes[k]).well_formed(),
        batched(commands, viewport) matches Ok(meshes) ==> forall|k: int|
            0 <= k < meshes.len() ==> (#[trigger] meshes[k]).well_formed(),
    decreases commands.len(),
{
    if commands.len() > 0 {
        assert forall|i: int| 0 <= i < commands.drop_last().len() implies ((
        #[trigger] commands.drop_last()[i]) matches Command::Draw { geometry, .. }
            ==> geometry.well_formed()) by {
            assert(commands.drop_last()[i] == commands[i]);
        }
        lemma_meshes_are_well_formed(commands.drop_last(), viewport);
        if let Ok(before) = Replay::<'a>::of(commands.drop_last(), viewport) {
            if let Ok(after) = before.step(&commands.last()) {
                assert(commands.last() == commands[commands.len() - 1]);
                assert forall|k: int| 0 <= k < after.meshes.len() implies (
                #[trigger] after.meshes[k]).well_formed() by {
                    if k < before.meshes.len() {
                        assert(after.meshes[k] == before.meshes[k]);
                    } else {
                        match commands.last() {
                            Command::Draw { origin, geometry } => {
                                let j = k - before.meshes.len();
                                assert(geometry.batches@[j].well_formed());
                            },
                            _ => {},
                        }
                    }
                }
            }
        }
    }
}

/// A display list that runs without failing runs without failing up to any
/// point.
pub proof fn lemma_scopes_of_prefix(open: Seq<Scope>, commands: Seq<Command>, k: int)
    requires
        0 <= k <= commands.len(),
        after_commands(open, commands) is Some,
    ensures
        after_commands(open, commands.take(k)) is Some,
    decreases commands.len(),
{
    if k == commands.len() {
        assert(commands.take(k) =~= commands);
    } else {
        assert(commands.drop_last().take(k) =~= commands.take(k));
        lemma_scopes_of_prefix(open, commands.drop_last(), k);
    }
}

proof fn lemma_layer_confines<'a>(
    bounds: Rectangle,
    inner: Seq<Command>,
    viewport: Rectangle,
    k: int,
)
    requires
        balanced(inner),
        0 <= k <= inner.len(),
    ensures
        Replay::<'a>::of(seq![Command::BeginLayer { bounds }] + inner.take(k), viewport) matches Ok(
            replay,
        ) ==> confined(replay, bounds, 0, 1),
    decreases k,
{
    let opening = seq![Command::BeginLayer { bounds }];
    let commands = opening + inner.take(k);
    if k == 0 {
        assert(commands =~= opening);
        assert(opening.drop_last() =~= Seq::<Command>::empty());
        assert(opening.last() == (Command::BeginLayer { bounds }));
        reveal_with_fuel(Replay::of, 2);
        let start = Replay::<'a>::start(viewport);
        if let Some(clip) = start.clip {
            lemma_overlap_within(clip, bounds);
        }
    } else {
        lemma_layer_confines(bounds, inner, viewport, k - 1);
        assert(commands.drop_last() =~= opening + inner.take(k - 1));
        assert(commands.last() == inner[k - 1]);
        if let Ok(after) = Replay::<'a>::of(commands, viewport) {
            let before = Replay::<'a>::of(commands.drop_last(), viewport)->Ok_0;
            // The layer that was opened first is still open.
            lemma_replay_follows_scopes(commands, viewport);
            lemma_scopes_of_prefix(Seq::empty(), inner, k);
            crate::render::lemma_after_concat(Seq::empty(), opening, inner.take(k));
            assert(after_commands(Seq::empty(), opening) == Some(seq![Scope::Layer])) by {
                reveal_with_fuel(after_commands, 2);
                assert(opening.drop_last() =~= Seq::<Command>::empty());
                assert(Seq::<Scope>::empty().push(Scope::Layer) =~= seq![Scope::Layer]);
            }
            crate::render::lemma_after_below(seq![Scope::Layer], Seq::empty(), inner.take(k));
            assert(kinds_of(after.open).len() == after.open.len());
            lemma_step_stays_confined(before, &commands.last(), bounds, 0, 1);
        }
    }
}

/// What is drawn inside a layer shows inside the bounds of the layer: every
/// mesh of balanced commands between the opening and the closing of a layer
/// is clipped to the layer's bounds.
pub proof fn lemma_layer_clips_its_content<'a>(
    bounds: Rectangle,
    inner: Seq<Command>,
    viewport: Rectangle,
)
    requires
        balanced(inner),
    ensures
        batched(
            seq![Command::BeginLayer { bounds }] + inner + seq![Command::EndLayer],
            viewport,
        ) matches Ok(meshes) ==> forall|k: int|
            0 <= k < meshes.len() ==> (#[trigger] meshes[k]).spec_clip_bounds().within(bounds),
{
    let opening = seq![Command::BeginLayer { bounds }];
    let commands = opening + inner + seq![Command::EndLayer];
    lemma_layer_confines(bounds, inner, viewport, inner.len() as int);
    assert(inner.take(inner.len() as int) =~= inner);
    assert(commands.drop_last() =~= opening + inner);
    assert(commands.last() == Command::EndLayer);
}

} // verus!
