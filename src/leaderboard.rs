use vstd::prelude::*;
use vstd::string::*;

verus! {

/// Longest name, in characters, shown in full on a leaderboard row.
pub const MAX_NAME_CHARS: usize = 20;

/// Background color of a leaderboard row.
pub open spec fn row_color_of(rank: i32, highlighted: bool) -> Seq<char> {
    if highlighted {
        "#823EF0"@
    } else if rank == 1 {
        "#FFD700"@
    } else if rank == 2 {
        "#E6E8FA"@
    } else if rank == 3 {
        "#CD7F32"@
    } else {
        "#36393e"@
    }
}

/// The highlighted user's row is violet; the first three ranks are gold,
/// silver and bronze; the others are dark grey.
pub fn row_color(rank: i32, highlighted: bool) -> (r: String)
    ensures
        r@ == row_color_of(rank, highlighted),
{
    if highlighted {
        String::from_str("#823EF0")
    } else if rank == 1 {
        String::from_str("#FFD700")
    } else if rank == 2 {
        String::from_str("#E6E8FA")
    } else if rank == 3 {
        String::from_str("#CD7F32")
    } else {
        String::from_str("#36393e")
    }
}

/// A name as shown on a row: kept when it fits, else cut to leave room for
/// an ellipsis within the same width.
pub open spec fn shown_name(s: Seq<char>) -> Seq<char> {
    if s.len() > MAX_NAME_CHARS {
        s.take(MAX_NAME_CHARS - 3) + "..."@
    } else {
        s
    }
}

pub fn truncate_username(name: &str) -> (r: String)
    ensures
        r@ == shown_name(name@),
{
    let n = name.unicode_len();
    if n > MAX_NAME_CHARS {
        let mut r = String::from_str(name.substring_char(0, MAX_NAME_CHARS - 3));
        r.append("...");
        assert(name@.subrange(0, (MAX_NAME_CHARS - 3) as int) =~= name@.take((MAX_NAME_CHARS - 3) as int));
        r
    } else {
        String::from_str(name)
    }
}

} // verus!
