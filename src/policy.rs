//! Vocabulary shared with the policy engine that consumes the post-boot API:
//! the foundational principles, reference checks and the plain data types
//! that describe an evaluation.
use vstd::prelude::*;
use vstd::string::StringSliceAdditionalSpecFns;

verus! {

/// The foundational principles and their references, in their fixed order.
pub fn core_principles() -> (r: Vec<(&'static str, &'static str)>)
    ensures
        r@.len() == 8,
        r@[0].0@ == "SANCTITY_OF_LIFE"@,
        r@[0].1@ == "Genesis 1:27 - Created in God's image"@,
        r@[1].0@ == "TRUTH_OVER_LIES"@,
        r@[1].1@ == "John 8:44 - Satan is the father of lies"@,
        r@[2].0@ == "PROTECTING_CHILDREN"@,
        r@[2].1@ == "Matthew 18:6 - Millstone warning"@,
        r@[3].0@ == "REJECTING_IDOLATRY"@,
        r@[3].1@ == "Exodus 20:3 - No other gods"@,
        r@[4].0@ == "SEXUAL_PURITY"@,
        r@[4].1@ == "Genesis 1:27, Matthew 19:4-6 - God's design"@,
        r@[5].0@ == "RIGHTEOUSNESS"@,
        r@[5].1@ == "Proverbs 21:3 - To do righteousness and justice"@,
        r@[6].0@ == "LOVE_OF_NEIGHBOR"@,
        r@[6].1@ == "Mark 12:31 - Love your neighbor as yourself"@,
        r@[7].0@ == "WISDOM_SEEKING"@,
        r@[7].1@ == "Proverbs 1:7 - Fear of the Lord is beginning of knowledge"@,
{
    vec![
        ("SANCTITY_OF_LIFE", "Genesis 1:27 - Created in God's image"),
        ("TRUTH_OVER_LIES", "John 8:44 - Satan is the father of lies"),
        ("PROTECTING_CHILDREN", "Matthew 18:6 - Millstone warning"),
        ("REJECTING_IDOLATRY", "Exodus 20:3 - No other gods"),
        ("SEXUAL_PURITY", "Genesis 1:27, Matthew 19:4-6 - God's design"),
        ("RIGHTEOUSNESS", "Proverbs 21:3 - To do righteousness and justice"),
        ("LOVE_OF_NEIGHBOR", "Mark 12:31 - Love your neighbor as yourself"),
        ("WISDOM_SEEKING", "Proverbs 1:7 - Fear of the Lord is beginning of knowledge"),
    ]
}

/// A reference is well-formed when its UTF-8 bytes hold a ':' and number
/// more than five.
pub open spec fn scripture_ref_ok(bytes: Seq<u8>) -> bool {
    bytes.contains(58u8) && bytes.len() > 5
}

/// Whether `reference` has the shape of a scripture reference.
pub fn validate_scripture_ref(reference: &str) -> (r: bool)
    ensures
        r == scripture_ref_ok(reference.spec_bytes()),
{
    let bytes = reference.as_bytes();
    let mut found = false;
    let mut i: usize = 0;
    while i < bytes.len()
        invariant
            bytes@ == reference.spec_bytes(),
            i <= bytes@.len(),
            found == exists|j: int| 0 <= j < i && bytes@[j] == 58u8,
        decreases bytes.len() - i,
    {
        if bytes[i] == 58u8 {
            found = true;
        }
        i = i + 1;
    }
    found && reference.len() > 5
}

/// Severity of a detected manipulation attempt, lowest first.
#[derive(Debug, Clone, Copy, PartialEq, Eq, Structural)]
pub enum ThreatLevel {
    Low,
    Medium,
    High,
    Critical,
    AGIManipulation,
}

impl ThreatLevel {
    /// The level's rank: 0 for `Low` up to 4 for `AGIManipulation`.
    pub fn priority(&self) -> (r: u8)
        ensures
            r == match *self {
                ThreatLevel::Low => 0u8,
                ThreatLevel::Medium => 1,
                ThreatLevel::High => 2,
                ThreatLevel::Critical => 3,
                ThreatLevel::AGIManipulation => 4,
            },
    {
        match self {
            ThreatLevel::Low => 0,
            ThreatLevel::Medium => 1,
            ThreatLevel::High => 2,
            ThreatLevel::Critical => 3,
            ThreatLevel::AGIManipulation => 4,
        }
    }
}

/// A known manipulation pattern and how to answer it.
pub struct AttackSignature {
    pub pattern: String,
    pub threat_level: ThreatLevel,
    pub countermeasures: Vec<String>,
    pub biblical_reference: String,
}

/// Who acts.
#[derive(Debug, Clone, Copy, PartialEq, Eq, Structural)]
pub enum ActorType {
    Person,
    ArtificialIntelligence,
    Content,
    Institution,
    Elite,
}

/// What kind of content is evaluated.
#[derive(Debug, Clone, Copy, PartialEq, Eq, Structural)]
pub enum ContentType {
    Text,
    Image,
    Video,
    Audio,
    Code,
    Educational,
    News,
    Entertainment,
}

/// Age groups of an audience.
#[derive(Debug, Clone, Copy, PartialEq, Eq, Structural)]
pub enum AgeGroup {
    Children,
    Teenagers,
    YoungAdults,
    Adults,
    Seniors,
}

/// How urgent an evaluation is.
#[derive(Debug, Clone, Copy, PartialEq, Eq, Structural)]
pub enum UrgencyLevel {
    Low,
    Normal,
    High,
    Critical,
}

/// Who receives the content.
pub struct Audience {
    pub age_groups: Vec<AgeGroup>,
    pub vulnerable_groups: Vec<String>,
    pub size: Option<u64>,
}

/// Circumstances of an evaluation.
pub struct Context {
    /// Geographic location (ISO 3166).
    pub location: Option<String>,
    pub culture: Option<String>,
    pub platform: Option<String>,
    pub audience: Option<Audience>,
    pub urgency: UrgencyLevel,
}

/// Errors of the policy engine, each with its message.
pub enum EthicsError {
    ParseError(String),
    EvaluationError(String),
    BiblicalReferenceError(String),
    FormalVerificationError(String),
    ConfigurationError(String),
    RuntimeError(String),
}

/// Performance limits of the policy engine.
#[derive(Debug, Clone, Copy, PartialEq, Eq, Structural)]
pub struct PerformanceConfig {
    pub max_evaluation_time_ms: u64,
    pub parallel_processing: bool,
    pub cache_size: usize,
    pub memory_limit_mb: usize,
}

/// Configuration of the policy engine.
pub struct EthicsConfig {
    pub formal_verification: bool,
    /// Strictness, 1 to 10.
    pub strictness_level: u8,
    pub language: String,
    pub cultural_adaptations: Vec<String>,
    pub performance: PerformanceConfig,
}

impl Default for EthicsConfig {
    fn default() -> (r: Self)
        ensures
            r.formal_verification,
            r.strictness_level == 8,
            r.language@ == "en"@,
            r.cultural_adaptations@.len() == 1,
            r.cultural_adaptations@[0]@ == "western"@,
            r.performance == (PerformanceConfig {
                max_evaluation_time_ms: 50,
                parallel_processing: true,
                cache_size: 10000,
                memory_limit_mb: 512,
            }),
    {
        EthicsConfig {
            formal_verification: true,
            strictness_level: 8,
            language: String::from_str("en"),
            cultural_adaptations: vec![String::from_str("western")],
            performance: PerformanceConfig {
                max_evaluation_time_ms: 50,
                parallel_processing: true,
                cache_size: 10000,
                memory_limit_mb: 512,
            },
        }
    }
}

} // verus!
