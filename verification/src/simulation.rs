//! Command-line options of the match simulation tool.

use vstd::prelude::*;

use crate::text::{parse_u32, same_text, u32_from_text};

verus! {

/// The round cap the arguments ask for: the number after the first `--round-cap`, when
/// there is one and it reads as a `u32`.
pub open spec fn round_cap_of(args: Seq<String>) -> Option<u32>
    decreases args.len(),
{
    if args.len() == 0 {
        None
    } else if args[0]@ == "--round-cap"@ {
        if args.len() > 1 { u32_from_text(args[1]@) } else { None }
    } else {
        round_cap_of(args.drop_first())
    }
}

/// Reads the round cap from the command-line arguments, program name excluded.
pub fn parse_round_cap(args: &[String]) -> (r: Option<u32>)
    ensures
        r == round_cap_of(args@),
{
    let mut index: usize = 0;
    proof {
        assert(args@.skip(0) =~= args@);
    }
    while index < args.len()
        invariant
            index <= args@.len(),
            round_cap_of(args@) == round_cap_of(args@.skip(index as int)),
        decreases args@.len() - index,
    {
        proof {
            assert(args@.skip(index as int)[0] == args@[index as int]);
            assert(args@.skip(index as int).drop_first() =~= args@.skip(index + 1));
        }
        if same_text(args[index].as_str(), "--round-cap") {
            if index + 1 < args.len() {
                proof {
                    assert(args@.skip(index as int)[1] == args@[index + 1]);
                }
                return parse_u32(args[index + 1].as_str());
            }
            return None;
        }
        index += 1;
    }
    None
}

} // verus!
