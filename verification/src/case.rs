use vstd::prelude::*;

verus! {

/// Whether `c` is an ASCII capital letter.
pub open spec fn is_ascii_upper(c: char) -> bool {
    'A' <= c && c <= 'Z'
}

/// Whether `c` is an ASCII small letter.
pub open spec fn is_ascii_lower(c: char) -> bool {
    'a' <= c && c <= 'z'
}

/// `c` with an ASCII capital made small.
pub open spec fn to_ascii_lower(c: char) -> char {
    if is_ascii_upper(c) {
        (c as int + 32) as char
    } else {
        c
    }
}

/// `c` with an ASCII small letter made capital.
pub open spec fn to_ascii_upper(c: char) -> char {
    if is_ascii_lower(c) {
        (c as int - 32) as char
    } else {
        c
    }
}

/// The identifier in small letters: `DescChron` becomes `descchron`.
pub open spec fn lowercase(ident: Seq<char>) -> Seq<char> {
    ident.map_values(|c: char| to_ascii_lower(c))
}

/// The identifier, made of capitalised words, in snake case: each capital
/// after the first character starts a new word after an underscore, and all
/// letters are small; `PendingApproval` becomes `pending_approval`.
pub open spec fn snake_case(ident: Seq<char>) -> Seq<char>
    decreases ident.len(),
{
    if ident.len() == 0 {
        Seq::empty()
    } else {
        let head = snake_case(ident.drop_last());
        let c = ident.last();
        if is_ascii_upper(c) && ident.len() > 1 {
            head + seq!['_', to_ascii_lower(c)]
        } else {
            head.push(to_ascii_lower(c))
        }
    }
}

/// The identifier in snake case with all letters capital: `WriteAll`
/// becomes `WRITE_ALL`.
pub open spec fn screaming_snake_case(ident: Seq<char>) -> Seq<char> {
    snake_case(ident).map_values(|c: char| to_ascii_upper(c))
}

} // verus!
