use vstd::prelude::*;
use vstd::string::StringExecFns;

verus! {

/// Artifacts are named by a bucket drawn below this bound. Two unrelated
/// finds may draw the same bucket, and the later one then overwrites the
/// earlier.
pub const BUCKETS: u32 = 10192;

/// Most passes of the reducer over one artifact.
pub const REDUCTION_PASSES: usize = 8;

/// Workers of the reducer.
pub const REDUCTION_JOBS: usize = 1;

/// Fewest bytes by which a reduction must shrink its input to be taken.
pub const MIN_REDUCTION: usize = 2;

/// Relies on `rand::rng().random_range(0..bound)`: a number drawn from the
/// thread's generator, below `bound`, which must be positive.
#[verifier::external_body]
fn random_below(bound: u32) -> (r: u32)
    requires
        bound > 0,
    ensures
        r < bound,
{
    rand::Rng::random_range(&mut rand::rng(), 0..bound)
}

/// Draws the bucket of a new artifact.
pub fn choose_bucket() -> (r: u32)
    ensures
        r < BUCKETS,
{
    random_below(BUCKETS)
}

/// The files of one artifact.
#[derive(Clone, Copy, Debug, PartialEq, Eq, Structural)]
pub enum ArtifactKind {
    /// The candidate that the target ran on.
    Input,
    /// What the target wrote on stdout.
    Stdout,
    /// What the target wrote on stderr.
    Stderr,
    /// The candidate after reduction.
    Reduced,
}

/// The suffix of an artifact file's name.
pub open spec fn suffix_of(kind: ArtifactKind) -> Seq<char> {
    match kind {
        ArtifactKind::Input => seq!['.', 'o', 'u', 't'],
        ArtifactKind::Stdout => seq!['.', 's', 't', 'd', 'o', 'u', 't'],
        ArtifactKind::Stderr => seq!['.', 's', 't', 'd', 'e', 'r', 'r'],
        ArtifactKind::Reduced => seq!['.', 'r', 'e', 'd', 'u', 'c', 'e', 'd', '.', 'o', 'u', 't'],
    }
}

/// The prefix of every artifact file's name.
pub open spec fn artifact_prefix() -> Seq<char> {
    seq!['t', 'r', 'e', 'e', '-', 'c', 'r', 'a', 's', 'h', 'e', 'r', '-']
}

/// The character of a decimal digit.
pub open spec fn digit_char(d: nat) -> char {
    if d == 0 {
        '0'
    } else if d == 1 {
        '1'
    } else if d == 2 {
        '2'
    } else if d == 3 {
        '3'
    } else if d == 4 {
        '4'
    } else if d == 5 {
        '5'
    } else if d == 6 {
        '6'
    } else if d == 7 {
        '7'
    } else if d == 8 {
        '8'
    } else {
        '9'
    }
}

/// A number written in decimal, without leading zeros.
pub open spec fn decimal(n: nat) -> Seq<char>
    decreases n,
{
    if n < 10 {
        seq![digit_char(n)]
    } else {
        decimal(n / 10).push(digit_char(n % 10))
    }
}

/// The name of an artifact file: `tree-crasher-<bucket><suffix>`.
pub open spec fn artifact_name(bucket: u32, kind: ArtifactKind) -> Seq<char> {
    artifact_prefix() + decimal(bucket as nat) + suffix_of(kind)
}

/// The files of one artifact have four distinct names, so recording an
/// artifact writes its input, stdout and stderr to three different files,
/// and its reduced input to a fourth.
pub proof fn lemma_artifact_names_distinct(bucket: u32, a: ArtifactKind, b: ArtifactKind)
    requires
        a != b,
    ensures
        artifact_name(bucket, a) != artifact_name(bucket, b),
{
    let p = artifact_prefix() + decimal(bucket as nat);
    assert(artifact_name(bucket, a) == p + suffix_of(a));
    assert(artifact_name(bucket, b) == p + suffix_of(b));
    if (a is Stdout && b is Stderr) || (a is Stderr && b is Stdout) {
        assert((p + suffix_of(a))[p.len() + 4int] != (p + suffix_of(b))[p.len() + 4int]);
    }
}

/// The text of one decimal digit.
fn digit_str(d: u32) -> (r: &'static str)
    requires
        d < 10,
    ensures
        r@ == seq![digit_char(d as nat)],
{
    proof {
        reveal_strlit("0");
        reveal_strlit("1");
        reveal_strlit("2");
        reveal_strlit("3");
        reveal_strlit("4");
        reveal_strlit("5");
        reveal_strlit("6");
        reveal_strlit("7");
        reveal_strlit("8");
        reveal_strlit("9");
    }
    match d {
        0 => "0",
        1 => "1",
        2 => "2",
        3 => "3",
        4 => "4",
        5 => "5",
        6 => "6",
        7 => "7",
        8 => "8",
        _ => "9",
    }
}

/// Appends a number in decimal.
fn push_decimal(s: &mut String, n: u32)
    ensures
        final(s)@ == old(s)@ + decimal(n as nat),
    decreases n,
{
    if n >= 10 {
        push_decimal(s, n / 10);
    }
    s.append(digit_str(n % 10));
    proof {
        if n >= 10 {
            assert(old(s)@ + decimal(n as nat) =~= old(s)@ + decimal((n / 10) as nat) + seq![
                digit_char((n % 10) as nat),
            ]);
        } else {
            assert(decimal(n as nat) =~= seq![digit_char((n % 10) as nat)]);
        }
    }
}

/// The name of an artifact's file, which the output directory holds.
pub fn artifact_file_name(bucket: u32, kind: ArtifactKind) -> (r: String)
    ensures
        r@ == artifact_name(bucket, kind),
{
    proof {
        reveal_strlit("tree-crasher-");
        reveal_strlit(".out");
        reveal_strlit(".stdout");
        reveal_strlit(".stderr");
        reveal_strlit(".reduced.out");
    }
    let mut name = String::from_str("tree-crasher-");
    push_decimal(&mut name, bucket);
    let suffix = match kind {
        ArtifactKind::Input => ".out",
        ArtifactKind::Stdout => ".stdout",
        ArtifactKind::Stderr => ".stderr",
        ArtifactKind::Reduced => ".reduced.out",
    };
    name.append(suffix);
    assert(name@ =~= artifact_name(bucket, kind));
    name
}

} // verus!
