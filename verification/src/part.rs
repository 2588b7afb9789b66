//! The five body parts and the two arm geometries.

use vstd::prelude::*;

verus! {

/// A body part that gets an atlas of its own. The parts are numbered from
/// one, in the order in which they are listed here.
#[derive(Clone, Copy, Debug, PartialEq, Eq, Structural)]
pub enum BodyPart {
    LeftArm,
    RightArm,
    LeftLeg,
    RightLeg,
    Torso,
}

/// The geometry of the arms: four pixels wide, or three.
#[derive(Clone, Copy, Debug, PartialEq, Eq, Structural)]
pub enum ArmVariant {
    Classic,
    Slim,
}

/// A number that names no body part.
#[derive(Clone, Copy, Debug, PartialEq, Eq, Structural)]
pub struct InvalidPartError {
    pub id: usize,
}

/// The number of body parts.
pub const PART_COUNT: usize = 5;

impl BodyPart {
    /// The number of the part, from 1 for the left arm to 5 for the torso.
    pub open spec fn spec_id(self) -> u8 {
        match self {
            BodyPart::LeftArm => 1,
            BodyPart::RightArm => 2,
            BodyPart::LeftLeg => 3,
            BodyPart::RightLeg => 4,
            BodyPart::Torso => 5,
        }
    }

    /// The part with the given number, if there is one.
    pub open spec fn spec_from_id(id: int) -> Option<BodyPart> {
        if id == 1 {
            Some(BodyPart::LeftArm)
        } else if id == 2 {
            Some(BodyPart::RightArm)
        } else if id == 3 {
            Some(BodyPart::LeftLeg)
        } else if id == 4 {
            Some(BodyPart::RightLeg)
        } else if id == 5 {
            Some(BodyPart::Torso)
        } else {
            None
        }
    }

    /// The place of the part in a sequence ordered by number.
    pub open spec fn spec_index(self) -> int {
        self.spec_id() - 1
    }

    /// The number of the part, from 1 for the left arm to 5 for the torso.
    #[verifier::when_used_as_spec(spec_id)]
    pub fn id(self) -> (id: u8)
        ensures
            id == self.spec_id(),
            1 <= id <= 5,
    {
        match self {
            BodyPart::LeftArm => 1,
            BodyPart::RightArm => 2,
            BodyPart::LeftLeg => 3,
            BodyPart::RightLeg => 4,
            BodyPart::Torso => 5,
        }
    }

    /// The place of the part in a sequence ordered by number.
    pub fn index(self) -> (i: usize)
        ensures
            i == self.spec_index(),
            i < PART_COUNT,
    {
        (self.id() - 1) as usize
    }

    /// The part with the given number; an error for a number outside 1
    /// to 5.
    pub fn from_id(id: usize) -> (r: Result<BodyPart, InvalidPartError>)
        ensures
            r == match BodyPart::spec_from_id(id as int) {
                Some(part) => Ok::<BodyPart, InvalidPartError>(part),
                None => Err(InvalidPartError { id }),
            },
            r is Ok <==> 1 <= id <= 5,
            r matches Ok(part) ==> part.spec_id() == id,
    {
        match id {
            1 => Ok(BodyPart::LeftArm),
            2 => Ok(BodyPart::RightArm),
            3 => Ok(BodyPart::LeftLeg),
            4 => Ok(BodyPart::RightLeg),
            5 => Ok(BodyPart::Torso),
            _ => Err(InvalidPartError { id }),
        }
    }

    /// The five parts, ordered by number.
    pub open spec fn spec_all() -> Seq<BodyPart> {
        seq![
            BodyPart::LeftArm,
            BodyPart::RightArm,
            BodyPart::LeftLeg,
            BodyPart::RightLeg,
            BodyPart::Torso,
        ]
    }

    /// The five parts, ordered by number.
    pub fn all() -> (parts: Vec<BodyPart>)
        ensures
            parts@ == BodyPart::spec_all(),
            parts.len() == PART_COUNT,
            forall|i: int| 0 <= i < 5 ==> (#[trigger] parts[i]).spec_index() == i,
    {
        let parts = vec![
            BodyPart::LeftArm,
            BodyPart::RightArm,
            BodyPart::LeftLeg,
            BodyPart::RightLeg,
            BodyPart::Torso,
        ];
        parts
    }
}

impl ArmVariant {
    /// The variant that the flag for slim arms stands for.
    pub open spec fn spec_from_slim(slim: bool) -> ArmVariant {
        if slim {
            ArmVariant::Slim
        } else {
            ArmVariant::Classic
        }
    }

    /// The variant that the flag for slim arms stands for.
    #[verifier::when_used_as_spec(spec_from_slim)]
    pub fn from_slim(slim: bool) -> (v: ArmVariant)
        ensures
            v == ArmVariant::spec_from_slim(slim),
    {
        if slim {
            ArmVariant::Slim
        } else {
            ArmVariant::Classic
        }
    }

    /// The word by which the hosting service knows the variant.
    pub open spec fn spec_name(self) -> Seq<char> {
        match self {
            ArmVariant::Classic => "classic"@,
            ArmVariant::Slim => "slim"@,
        }
    }

    /// The word by which the hosting service knows the variant.
    pub fn name(self) -> (word: &'static str)
        ensures
            word@ == self.spec_name(),
    {
        match self {
            ArmVariant::Classic => "classic",
            ArmVariant::Slim => "slim",
        }
    }
}

} // verus!
