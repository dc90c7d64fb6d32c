//! Decisions of the golden-file harness: where a case's expected output is
//! found, and how a case ends once its input has been transformed and printed.
use vstd::prelude::*;

verus! {

/// How one fixture case ends.
#[derive(Clone, Copy, Debug, PartialEq, Eq, Structural)]
pub enum FixtureOutcome {
    /// The printed output equals the expected output.
    Passed,
    /// The printed output differs from the expected output.
    Failed,
    /// The expected output is to be overwritten with the printed output.
    Regenerated,
    /// There is no expected output to compare against.
    MissingExpected,
}

/// The outcome of a case whose printed output is `actual`, whose expected
/// output is `expected` (`None` where that file is absent), and where
/// `regenerate` says whether the harness was asked to rewrite expectations.
pub open spec fn outcome_of(actual: Seq<char>, expected: Option<Seq<char>>, regenerate: bool) -> FixtureOutcome {
    if regenerate {
        FixtureOutcome::Regenerated
    } else {
        match expected {
            None => FixtureOutcome::MissingExpected,
            Some(e) => if e == actual {
                FixtureOutcome::Passed
            } else {
                FixtureOutcome::Failed
            },
        }
    }
}

/// Decides how a fixture case ends; see [`outcome_of`].
pub fn fixture_outcome(actual: &String, expected: &Option<String>, regenerate: bool) -> (r: FixtureOutcome)
    ensures
        r == outcome_of(
            actual@,
            match expected {
                Some(e) => Some(e@),
                None => None,
            },
            regenerate,
        ),
{
    if regenerate {
        FixtureOutcome::Regenerated
    } else {
        match expected {
            None => FixtureOutcome::MissingExpected,
            Some(e) => if *e == *actual {
                FixtureOutcome::Passed
            } else {
                FixtureOutcome::Failed
            },
        }
    }
}

/// The path separator.
pub const SLASH: u8 = 47;

/// Where the file name of path `p` starts: just after its last separator,
/// or at 0 where it has none.
pub open spec fn name_start(p: Seq<u8>) -> int
    decreases p.len(),
{
    if p.len() == 0 {
        0
    } else if p.last() == SLASH {
        p.len() as int
    } else {
        name_start(p.drop_last())
    }
}

/// `input.`, the start of the file name of a fixture's input.
pub open spec fn input_stem() -> Seq<u8> {
    seq![105u8, 110u8, 112u8, 117u8, 116u8, 46u8]
}

/// `output.`, the start of the file name of a fixture's expected output.
pub open spec fn output_stem() -> Seq<u8> {
    seq![111u8, 117u8, 116u8, 112u8, 117u8, 116u8, 46u8]
}

/// The path of the expected output of the fixture whose input is at `p`:
/// the sibling `output.<ext>` of `input.<ext>`. `None` where the file name of
/// `p` does not start with `input.`.
pub open spec fn expected_path_of(p: Seq<u8>) -> Option<Seq<u8>> {
    let s = name_start(p);
    let name = p.subrange(s, p.len() as int);
    if name.len() >= 6 && name.subrange(0, 6) == input_stem() {
        Some(p.subrange(0, s) + output_stem() + name.subrange(6, name.len() as int))
    } else {
        None
    }
}

/// Finds the expected-output file of the fixture whose input is at `input`.
pub fn expected_output_path(input: &[u8]) -> (r: Option<Vec<u8>>)
    ensures
        match r {
            Some(v) => expected_path_of(input@) == Some(v@),
            None => expected_path_of(input@) is None,
        },
{
    let n = input.len();
    let mut s: usize = n;
    assert(input@.subrange(0, n as int) =~= input@);
    while s > 0 && input[s - 1] != SLASH
        invariant
            s <= n == input@.len(),
            name_start(input@.subrange(0, s as int)) == name_start(input@),
        decreases s,
    {
        assert(input@.subrange(0, s as int).drop_last() =~= input@.subrange(0, s - 1));
        s = s - 1;
    }
    proof {
        if s == 0 {
            assert(input@.subrange(0, 0).len() == 0);
        } else {
            assert(input@.subrange(0, s as int).last() == SLASH);
        }
        assert(name_start(input@) == s);
    }
    let ghost name = input@.subrange(s as int, n as int);
    let stem: [u8; 6] = [105u8, 110u8, 112u8, 117u8, 116u8, 46u8];
    if n - s < 6 {
        return None;
    }
    let mut k: usize = 0;
    #[verifier::loop_isolation(false)]
    while k < 6
        invariant
            s + 6 <= n == input@.len(),
            k <= 6,
            stem@ == input_stem(),
            forall|j: int| 0 <= j < k ==> input@[s + j] == input_stem()[j],
        decreases 6 - k,
    {
        if input[s + k] != stem[k] {
            proof {
                assert(name.subrange(0, 6)[k as int] != input_stem()[k as int]);
            }
            return None;
        }
        k = k + 1;
    }
    assert(name.subrange(0, 6) =~= input_stem());
    let mut out: Vec<u8> = Vec::new();
    let mut i: usize = 0;
    #[verifier::loop_isolation(false)]
    while i < s
        invariant
            i <= s <= n == input@.len(),
            out@ == input@.subrange(0, i as int),
        decreases s - i,
    {
        out.push(input[i]);
        assert(input@.subrange(0, i + 1) =~= input@.subrange(0, i as int).push(input@[i as int]));
        i = i + 1;
    }
    let ostem: [u8; 7] = [111u8, 117u8, 116u8, 112u8, 117u8, 116u8, 46u8];
    let mut k: usize = 0;
    #[verifier::loop_isolation(false)]
    while k < 7
        invariant
            k <= 7,
            ostem@ == output_stem(),
            out@ == input@.subrange(0, s as int) + output_stem().subrange(0, k as int),
        decreases 7 - k,
    {
        out.push(ostem[k]);
        assert(output_stem().subrange(0, k + 1) =~= output_stem().subrange(0, k as int).push(output_stem()[k as int]));
        k = k + 1;
    }
    assert(output_stem().subrange(0, 7) =~= output_stem());
    let mut i: usize = s + 6;
    #[verifier::loop_isolation(false)]
    while i < n
        invariant
            s + 6 <= i <= n == input@.len(),
            out@ == input@.subrange(0, s as int) + output_stem() + input@.subrange(s + 6, i as int),
        decreases n - i,
    {
        out.push(input[i]);
        assert(input@.subrange(s + 6, i + 1) =~= input@.subrange(s + 6, i as int).push(input@[i as int]));
        i = i + 1;
    }
    assert(name.subrange(6, name.len() as int) =~= input@.subrange(s + 6, n as int));
    Some(out)
}

} // verus!
