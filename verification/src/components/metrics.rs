//! The texts of the machine's figures. The figures themselves are sampled and
//! rounded by the caller; here they are laid out as the bar shows them.

use vstd::prelude::*;
use vstd::string::*;

verus! {

/// The text for a processor load that is given as a percentage.
pub open spec fn cpu_line(usage: Seq<char>) -> Seq<char> {
    seq!['C', 'P', 'U', ':', ' '] + usage + seq!['%']
}

/// The text for the memory in use and the memory there is.
pub open spec fn mem_line(used: Seq<char>, total: Seq<char>) -> Seq<char> {
    seq!['M', 'E', 'M', ':', ' '] + used + seq!['/'] + total + seq!['G', 'b']
}

/// Lays out a processor load: `CPU: `, the percentage as given, and `%`.
pub fn cpu_text(usage: &str) -> (text: String)
    ensures
        text@ == cpu_line(usage@),
{
    let mut text = String::from_str("CPU: ");
    text.append(usage);
    text.append("%");
    proof {
        reveal_strlit("CPU: ");
        reveal_strlit("%");
        assert("CPU: "@ =~= seq!['C', 'P', 'U', ':', ' ']);
        assert("%"@ =~= seq!['%']);
    }
    text
}

/// Lays out the memory figures: `MEM: `, the memory in use, `/`, the memory
/// there is, and `Gb`, each figure as given.
pub fn mem_text(used: &str, total: &str) -> (text: String)
    ensures
        text@ == mem_line(used@, total@),
{
    let mut text = String::from_str("MEM: ");
    text.append(used);
    text.append("/");
    text.append(total);
    text.append("Gb");
    proof {
        reveal_strlit("MEM: ");
        reveal_strlit("/");
        reveal_strlit("Gb");
        assert("MEM: "@ =~= seq!['M', 'E', 'M', ':', ' ']);
        assert("/"@ =~= seq!['/']);
        assert("Gb"@ =~= seq!['G', 'b']);
    }
    text
}

} // verus!
