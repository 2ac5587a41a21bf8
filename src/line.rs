use vstd::prelude::*;

verus! {

/// The bytes that `u8::is_ascii_whitespace` accepts: space, tab, line feed,
/// form feed and carriage return.
pub open spec fn is_blank(b: u8) -> bool {
    b == 0x20u8 || b == 0x09u8 || b == 0x0Au8 || b == 0x0Cu8 || b == 0x0Du8
}

/// A line with its trailing ASCII whitespace removed.
pub open spec fn trim_end(s: Seq<u8>) -> Seq<u8>
    decreases s.len(),
{
    if s.len() > 0 && is_blank(s.last()) {
        trim_end(s.drop_last())
    } else {
        s
    }
}

pub fn blank_byte(b: u8) -> (r: bool)
    ensures
        r == is_blank(b),
{
    b == 0x20u8 || b == 0x09u8 || b == 0x0Au8 || b == 0x0Cu8 || b == 0x0Du8
}

/// Removes trailing ASCII whitespace from an operator's input line.
pub fn trim_line(line: Vec<u8>) -> (r: Vec<u8>)
    ensures
        r@ == trim_end(line@),
{
    let ghost line_in = line;
    let mut line = line;
    while line.len() > 0 && blank_byte(line[line.len() - 1])
        invariant
            trim_end(line@) == trim_end(line_in@),
        decreases line.len(),
    {
        line.pop();
    }
    line
}

} // verus!
