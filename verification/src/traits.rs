//! What every stage of a pipeline can do: attach itself to a container,
//! detach itself again, and name its connection points.
use crate::container::{
    attached_after, created_by, fits, sound, with_elements, without_elements, Container,
};
use crate::engine::{CommandModel, StepModel};
use crate::recorder::errors::{fails_with, ErrorModel, RecorderError};
use vstd::prelude::*;

verus! {

/// A stage that can join a container and leave it again.
pub trait Pipeline {
    /// Whether the stage can be attached at all.
    spec fn implemented(&self) -> bool;

    /// The steps that attach the stage: its elements are added to the
    /// container and linked to each other.
    spec fn attach_plan(&self) -> Seq<StepModel>;

    /// The steps that detach the stage.
    spec fn detach_plan(&self) -> Seq<StepModel>;

    /// The stage's elements.
    spec fn members(&self) -> Seq<usize>;

    /// The error of a refused attachment.
    spec fn attach_refusal(&self) -> ErrorModel;

    /// The error of a refused detachment.
    spec fn detach_refusal(&self) -> ErrorModel;

    /// Attaching a stage whose elements may be added keeps a plan sound,
    /// creates nothing, and brings exactly the stage's elements into the
    /// container.
    proof fn lemma_attach(&self, plan: Seq<StepModel>)
        requires
            self.implemented(),
            sound(plan),
            fits(plan, CommandModel::Add { elements: self.members() }),
        ensures
            sound(plan + self.attach_plan()),
            created_by(plan + self.attach_plan()) == created_by(plan),
            attached_after(plan + self.attach_plan()) == with_elements(
                attached_after(plan),
                self.members(),
            ),
    ;

    /// Detaching a stage whose elements may be removed keeps a plan sound,
    /// creates nothing, and takes exactly the stage's elements out of the
    /// container.
    proof fn lemma_detach(&self, plan: Seq<StepModel>)
        requires
            self.implemented(),
            sound(plan),
            fits(plan, CommandModel::Remove { elements: self.members() }),
        ensures
            sound(plan + self.detach_plan()),
            created_by(plan + self.detach_plan()) == created_by(plan),
            attached_after(plan + self.detach_plan()) == without_elements(
                attached_after(plan),
                self.members(),
            ),
    ;

    /// Plans the attachment of the stage. It is refused, and nothing is
    /// planned, where the plan would no longer be sound: where an element of
    /// the stage is in the container already.
    fn link(&self, pipeline: &mut Container) -> (res: Result<(), RecorderError>)
        requires
            old(pipeline).wf(),
        ensures
            final(pipeline).wf(),
            self.implemented() && sound(old(pipeline).plan() + self.attach_plan()) ==> res is Ok
                && final(pipeline).plan() == old(pipeline).plan() + self.attach_plan(),
            !(self.implemented() && sound(old(pipeline).plan() + self.attach_plan()))
                ==> fails_with(res, self.attach_refusal()) && final(pipeline).plan() == old(
                pipeline,
            ).plan(),
    ;

    /// Plans the detachment of the stage. It is refused, and nothing is
    /// planned, where an element of the stage is not in the container.
    fn unlink(&self, pipeline: &mut Container) -> (res: Result<(), RecorderError>)
        requires
            old(pipeline).wf(),
        ensures
            final(pipeline).wf(),
            self.implemented() && sound(old(pipeline).plan() + self.detach_plan()) ==> res is Ok
                && final(pipeline).plan() == old(pipeline).plan() + self.detach_plan(),
            !(self.implemented() && sound(old(pipeline).plan() + self.detach_plan()))
                ==> fails_with(res, self.detach_refusal()) && final(pipeline).plan() == old(
                pipeline,
            ).plan(),
    ;
}

/// A stage that data leaves.
pub trait PipelineSrc {
    /// Whether the stage has an outlet.
    spec fn has_outlet(&self) -> bool;

    /// The element that data leaves the stage through.
    spec fn outlet(&self) -> usize;

    fn source(&self) -> (res: usize)
        requires
            self.has_outlet(),
        ensures
            res == self.outlet(),
    ;
}

/// A stage that data enters.
pub trait PipelineSink {
    /// Whether the stage has an inlet.
    spec fn has_inlet(&self) -> bool;

    /// The element that data enters the stage through.
    spec fn inlet(&self) -> usize;

    fn sink(&self) -> (res: usize)
        requires
            self.has_inlet(),
        ensures
            res == self.inlet(),
    ;
}

} // verus!
