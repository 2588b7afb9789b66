//! The work of one body part before its upload, and the join of the five
//! outcomes into a sequence ordered by body part.

use crate::atlas::Atlas;
use crate::codec::png_encoded;
use crate::codec::EncodeError;
use crate::part::ArmVariant;
use crate::part::BodyPart;
use crate::part::PART_COUNT;
use crate::remap::remap;
use crate::upload::HandleModel;
use crate::upload::UploadResult;
use vstd::prelude::*;

verus! {

/// The PNG image of the atlas of one body part, made from a copy of the
/// full-body atlas; an error where the image cannot be written.
pub fn render_part(source: &Atlas, part: BodyPart, variant: ArmVariant) -> (r: Result<
    Vec<u8>,
    EncodeError,
>)
    requires
        source@.fits(part, variant),
    ensures
        ({
            let atlas = source@.remapped(part, variant);
            let png = png_encoded(atlas.bytes(), source@.width as int, source@.height as int);
            match r {
                Ok(bytes) => png == Some(bytes@),
                Err(_) => png is None,
            }
        }),
{
    remap(source.clone(), part, variant).encode_png()
}

/// The outcome of a part among those that the workers handed in, in the
/// order in which they finished: the first that is marked with the part,
/// a failure if none is.
pub open spec fn outcome_of(outcomes: Seq<(BodyPart, Option<HandleModel>)>, part: BodyPart)
    -> Option<HandleModel>
    decreases outcomes.len(),
{
    if outcomes.len() == 0 {
        None
    } else if outcomes[0].0 == part {
        outcomes[0].1
    } else {
        outcome_of(outcomes.drop_first(), part)
    }
}

/// The five outcomes ordered by body part.
pub open spec fn assembled(outcomes: Seq<(BodyPart, Option<HandleModel>)>) -> Seq<
    Option<HandleModel>,
> {
    Seq::new(PART_COUNT as nat, |i: int| outcome_of(outcomes, BodyPart::spec_all()[i]))
}

/// The models of the outcomes that the workers handed in.
pub open spec fn outcome_models(outcomes: Seq<(BodyPart, UploadResult)>) -> Seq<
    (BodyPart, Option<HandleModel>),
> {
    outcomes.map_values(|o: (BodyPart, UploadResult)| (o.0, o.1@))
}

/// An outcome that is the only one of its part stands in the slot of that
/// part, wherever it stands among the outcomes handed in.
pub proof fn lemma_outcome_lands_in_its_slot(
    outcomes: Seq<(BodyPart, Option<HandleModel>)>,
    i: int,
)
    requires
        0 <= i < outcomes.len(),
        forall|j: int| 0 <= j < outcomes.len() && j != i ==> outcomes[j].0 != outcomes[i].0,
    ensures
        assembled(outcomes)[outcomes[i].0.spec_index()] == outcomes[i].1,
        outcome_of(outcomes, outcomes[i].0) == outcomes[i].1,
    decreases outcomes.len(),
{
    if i > 0 {
        lemma_outcome_lands_in_its_slot(outcomes.drop_first(), i - 1);
    }
}

/// A part of which no outcome was handed in has a failure in its slot.
pub proof fn lemma_missing_outcome_is_failure(
    outcomes: Seq<(BodyPart, Option<HandleModel>)>,
    part: BodyPart,
)
    requires
        forall|j: int| 0 <= j < outcomes.len() ==> outcomes[j].0 != part,
    ensures
        assembled(outcomes)[part.spec_index()] is None,
        outcome_of(outcomes, part) is None,
    decreases outcomes.len(),
{
    if outcomes.len() > 0 {
        lemma_missing_outcome_is_failure(outcomes.drop_first(), part);
    }
}

/// The outcomes of the five body parts, ordered by body part.
#[derive(Debug)]
pub struct PipelineOutput {
    pub left_arm: UploadResult,
    pub right_arm: UploadResult,
    pub left_leg: UploadResult,
    pub right_leg: UploadResult,
    pub torso: UploadResult,
}

impl View for PipelineOutput {
    type V = Seq<Option<HandleModel>>;

    open spec fn view(&self) -> Seq<Option<HandleModel>> {
        seq![self.left_arm@, self.right_arm@, self.left_leg@, self.right_leg@, self.torso@]
    }
}

impl PipelineOutput {
    /// The output in which every part has failed.
    pub fn failed() -> (out: PipelineOutput)
        ensures
            out@ == Seq::new(PART_COUNT as nat, |i: int| None::<HandleModel>),
    {
        let out = PipelineOutput {
            left_arm: UploadResult::Failed,
            right_arm: UploadResult::Failed,
            left_leg: UploadResult::Failed,
            right_leg: UploadResult::Failed,
            torso: UploadResult::Failed,
        };
        out
    }

    /// The output with the outcome of `part` replaced by `result`.
    pub fn with(self, part: BodyPart, result: UploadResult) -> (out: PipelineOutput)
        ensures
            out@ == self@.update(part.spec_index(), result@),
    {
        let mut out = self;
        match part {
            BodyPart::LeftArm => {
                out.left_arm = result;
            },
            BodyPart::RightArm => {
                out.right_arm = result;
            },
            BodyPart::LeftLeg => {
                out.left_leg = result;
            },
            BodyPart::RightLeg => {
                out.right_leg = result;
            },
            BodyPart::Torso => {
                out.torso = result;
            },
        }
        out
    }

    /// The outcome of a part.
    pub fn get(&self, part: BodyPart) -> (result: &UploadResult)
        ensures
            result@ == self@[part.spec_index()],
    {
        match part {
            BodyPart::LeftArm => &self.left_arm,
            BodyPart::RightArm => &self.right_arm,
            BodyPart::LeftLeg => &self.left_leg,
            BodyPart::RightLeg => &self.right_leg,
            BodyPart::Torso => &self.torso,
        }
    }

    /// The outcomes as pairs of strings, ordered by body part: signature
    /// and value, or two empty strings where the upload of a part failed.
    pub fn into_pairs(self) -> (pairs: Vec<(String, String)>)
        ensures
            pairs.len() == PART_COUNT,
            forall|i: int|
                0 <= i < PART_COUNT ==> ((#[trigger] pairs[i]).0@, pairs[i].1@)
                    == UploadResult::spec_pair(self@[i]),
    {
        let mut pairs: Vec<(String, String)> = Vec::new();
        pairs.push(self.left_arm.into_pair());
        pairs.push(self.right_arm.into_pair());
        pairs.push(self.left_leg.into_pair());
        pairs.push(self.right_leg.into_pair());
        pairs.push(self.torso.into_pair());
        pairs
    }
}

/// Joins the outcomes of the workers, handed in as they finished, into the
/// sequence ordered by body part. A part's slot gets the first outcome
/// marked with the part, and a failure where there is none.
pub fn assemble(outcomes: Vec<(BodyPart, UploadResult)>) -> (out: PipelineOutput)
    ensures
        out@ == assembled(outcome_models(outcomes@)),
{
    let ghost all = outcome_models(outcomes@);
    let mut out = PipelineOutput::failed();
    let mut rest = outcomes;
    while rest.len() > 0
        invariant
            rest.len() <= all.len(),
            all == outcome_models(outcomes@),
            forall|k: int| 0 <= k < rest.len() ==> (#[trigger] rest[k]) == outcomes[k],
            out@ == assembled(all.skip(rest.len() as int)),
        decreases rest.len(),
    {
        let ghost before = all.skip(rest.len() as int);
        let (part, result) = rest.pop().unwrap();
        assert(all.skip(rest.len() as int).drop_first() =~= before);
        out = out.with(part, result);
    }
    assert(all.skip(0) =~= all);
    out
}

} // verus!
