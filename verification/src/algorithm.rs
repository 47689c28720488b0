//! The closed set of ranked-retrieval algorithms and their wire codes.

use vstd::prelude::*;

verus! {

/// A ranked-retrieval algorithm, or `Auto` to leave the choice open.
#[derive(Debug, Clone, Copy, PartialEq, Eq, Structural)]
pub enum PisaQueryAlgorithm {
    Wand,
    BlockMaxWand,
    MaxScore,
    RankedAnd,
    Auto,
}

/// The algorithm that a wire code stands for; every unassigned code stands for `Auto`.
pub open spec fn algorithm_of_code(code: int) -> PisaQueryAlgorithm {
    if code == 1 {
        PisaQueryAlgorithm::Wand
    } else if code == 2 {
        PisaQueryAlgorithm::BlockMaxWand
    } else if code == 3 {
        PisaQueryAlgorithm::MaxScore
    } else if code == 4 {
        PisaQueryAlgorithm::RankedAnd
    } else {
        PisaQueryAlgorithm::Auto
    }
}

/// The wire code of an algorithm.
pub open spec fn code_of_algorithm(algorithm: PisaQueryAlgorithm) -> int {
    match algorithm {
        PisaQueryAlgorithm::Wand => 1,
        PisaQueryAlgorithm::BlockMaxWand => 2,
        PisaQueryAlgorithm::MaxScore => 3,
        PisaQueryAlgorithm::RankedAnd => 4,
        PisaQueryAlgorithm::Auto => 5,
    }
}

/// The tag by which an algorithm is named in reports.
pub open spec fn algorithm_tag(algorithm: PisaQueryAlgorithm) -> Seq<char> {
    match algorithm {
        PisaQueryAlgorithm::Wand => "Wand"@,
        PisaQueryAlgorithm::BlockMaxWand => "BlockMaxWand"@,
        PisaQueryAlgorithm::MaxScore => "MaxScore"@,
        PisaQueryAlgorithm::RankedAnd => "RankedAnd"@,
        PisaQueryAlgorithm::Auto => "Auto"@,
    }
}

/// Decoding the code of an algorithm gives the algorithm back.
pub proof fn lemma_decode_inverts_encode(algorithm: PisaQueryAlgorithm)
    ensures
        algorithm_of_code(code_of_algorithm(algorithm)) == algorithm,
        1 <= code_of_algorithm(algorithm) <= 5,
{
}

/// Encoding what an assigned code decodes to gives the code back.
pub proof fn lemma_encode_inverts_decode(code: int)
    requires
        1 <= code <= 5,
    ensures
        code_of_algorithm(algorithm_of_code(code)) == code,
{
}

/// A code that is not assigned decodes to `Auto`, whose own code is 5.
pub proof fn lemma_unassigned_code_is_auto(code: int)
    requires
        code < 1 || code > 5,
    ensures
        algorithm_of_code(code) == PisaQueryAlgorithm::Auto,
        code_of_algorithm(algorithm_of_code(code)) == 5,
{
}

impl PisaQueryAlgorithm {
    /// Decodes a wire code. Never fails: an unassigned code decodes to `Auto`.
    pub fn from_i32(value: i32) -> (algorithm: Self)
        ensures
            algorithm == algorithm_of_code(value as int),
    {
        match value {
            1 => PisaQueryAlgorithm::Wand,
            2 => PisaQueryAlgorithm::BlockMaxWand,
            3 => PisaQueryAlgorithm::MaxScore,
            4 => PisaQueryAlgorithm::RankedAnd,
            _ => PisaQueryAlgorithm::Auto,
        }
    }

    /// Encodes the algorithm as its wire code, a number from 1 to 5.
    pub fn to_i32(&self) -> (code: i32)
        ensures
            code as int == code_of_algorithm(*self),
    {
        match self {
            PisaQueryAlgorithm::Wand => 1,
            PisaQueryAlgorithm::BlockMaxWand => 2,
            PisaQueryAlgorithm::MaxScore => 3,
            PisaQueryAlgorithm::RankedAnd => 4,
            PisaQueryAlgorithm::Auto => 5,
        }
    }

    /// The tag by which the algorithm is named in reports.
    pub fn name(&self) -> (tag: String)
        ensures
            tag@ == algorithm_tag(*self),
    {
        match self {
            PisaQueryAlgorithm::Wand => "Wand".to_owned(),
            PisaQueryAlgorithm::BlockMaxWand => "BlockMaxWand".to_owned(),
            PisaQueryAlgorithm::MaxScore => "MaxScore".to_owned(),
            PisaQueryAlgorithm::RankedAnd => "RankedAnd".to_owned(),
            PisaQueryAlgorithm::Auto => "Auto".to_owned(),
        }
    }
}

} // verus!
