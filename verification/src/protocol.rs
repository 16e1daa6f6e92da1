use vstd::prelude::*;

verus! {

/// One step of the layer-surface negotiation a driver plays when a
/// surface is created.
#[derive(Clone, Copy, PartialEq, Eq, Structural, Debug)]
pub enum SetupStep {
    /// Create the layer surface on the compositor's background layer.
    CreateLayerSurface,
    /// Ask for the given surface size; zero means "compositor decides".
    SetSize { width: u32, height: u32 },
    /// Anchor the surface to all four edges of the output.
    AnchorAllEdges,
    /// Set the exclusive zone; -1 means "draw under everything".
    SetExclusiveZone { zone: i32 },
    /// Commit the surface so the compositor answers with a Configure.
    Commit,
}

/// One step of submitting a finished buffer to the compositor.
#[derive(Clone, Copy, PartialEq, Eq, Structural, Debug)]
pub enum SubmitStep {
    /// Attach the freshly written buffer at the given offset.
    Attach { x: i32, y: i32 },
    /// Declare the given rectangle of the buffer as damaged.
    Damage { x: i32, y: i32, width: u32, height: u32 },
    /// Commit the surface: the attach and damage take effect.
    Commit,
}

/// One step of tearing a surface down: children before parents.
#[derive(Clone, Copy, PartialEq, Eq, Structural, Debug)]
pub enum TeardownStep {
    /// Destroy the layer-surface object first.
    DestroyLayerSurface,
    /// Then destroy the underlying surface object.
    DestroySurface,
}

/// The negotiation sequence: create the layer surface, size (0, 0), anchor
/// every edge, exclusive zone -1, then an initial commit.
pub open spec fn init_spec() -> Seq<SetupStep> {
    seq![
        SetupStep::CreateLayerSurface,
        SetupStep::SetSize { width: 0, height: 0 },
        SetupStep::AnchorAllEdges,
        SetupStep::SetExclusiveZone { zone: -1i32 },
        SetupStep::Commit,
    ]
}

/// The submission sequence for a buffer of the given dimensions: attach at
/// the origin, damage the full rectangle, then commit.
pub open spec fn submission_spec(width: u32, height: u32) -> Seq<SubmitStep> {
    seq![
        SubmitStep::Attach { x: 0, y: 0 },
        SubmitStep::Damage { x: 0, y: 0, width, height },
        SubmitStep::Commit,
    ]
}

/// The teardown sequence: the layer surface is destroyed strictly before
/// its parent surface.
pub open spec fn teardown_spec() -> Seq<TeardownStep> {
    seq![TeardownStep::DestroyLayerSurface, TeardownStep::DestroySurface]
}

/// The commands a driver must play, in order, when a surface is created.
pub fn init_plan() -> (r: Vec<SetupStep>)
    ensures
        r@ == init_spec(),
{
    let mut v: Vec<SetupStep> = Vec::new();
    v.push(SetupStep::CreateLayerSurface);
    v.push(SetupStep::SetSize { width: 0, height: 0 });
    v.push(SetupStep::AnchorAllEdges);
    v.push(SetupStep::SetExclusiveZone { zone: -1 });
    v.push(SetupStep::Commit);
    proof {
        assert(v@ =~= init_spec());
    }
    v
}

/// The commands a driver must play, in order, to submit a finished buffer
/// of the given dimensions.
pub fn submission_plan(width: u32, height: u32) -> (r: Vec<SubmitStep>)
    ensures
        r@ == submission_spec(width, height),
{
    let mut v: Vec<SubmitStep> = Vec::new();
    v.push(SubmitStep::Attach { x: 0, y: 0 });
    v.push(SubmitStep::Damage { x: 0, y: 0, width, height });
    v.push(SubmitStep::Commit);
    proof {
        assert(v@ =~= submission_spec(width, height));
    }
    v
}

/// The commands a driver must play, in order, when a surface is disposed
/// of.
pub fn teardown_plan() -> (r: Vec<TeardownStep>)
    ensures
        r@ == teardown_spec(),
{
    let mut v: Vec<TeardownStep> = Vec::new();
    v.push(TeardownStep::DestroyLayerSurface);
    v.push(TeardownStep::DestroySurface);
    proof {
        assert(v@ =~= teardown_spec());
    }
    v
}

/// In every submission sequence, the attach comes strictly before the
/// damage, and the damage strictly before the commit: damage must be
/// declared before commit for the compositor to know what changed.
pub proof fn lemma_submission_order(width: u32, height: u32)
    ensures
        forall|i: int, j: int|
            #![trigger submission_spec(width, height)[i], submission_spec(width, height)[j]]
            0 <= i < submission_spec(width, height).len() && 0 <= j < submission_spec(
                width,
                height,
            ).len() && (submission_spec(width, height)[i] matches SubmitStep::Attach { .. }) && (
            submission_spec(width, height)[j] matches SubmitStep::Damage { .. }) ==> i < j,
        forall|i: int, j: int|
            #![trigger submission_spec(width, height)[i], submission_spec(width, height)[j]]
            0 <= i < submission_spec(width, height).len() && 0 <= j < submission_spec(
                width,
                height,
            ).len() && (submission_spec(width, height)[i] matches SubmitStep::Damage { .. }) && (
            submission_spec(width, height)[j] is Commit) ==> i < j,
{
}

/// In the teardown sequence, the layer surface is destroyed strictly
/// before its parent surface: children before parents.
pub proof fn lemma_teardown_order()
    ensures
        forall|i: int, j: int|
            #![trigger teardown_spec()[i], teardown_spec()[j]]
            0 <= i < teardown_spec().len() && 0 <= j < teardown_spec().len() && (teardown_spec()[i]
                is DestroyLayerSurface) && (teardown_spec()[j] is DestroySurface) ==> i < j,
{
}

} // verus!
