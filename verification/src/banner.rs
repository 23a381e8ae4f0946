//! The welcome banner: the product/version message, centered with a
//! leading tilde and truncated so that it never wraps, however narrow the
//! terminal is.

use vstd::prelude::*;

verus! {

/// The banner message, `"<product> editor -- version <version>"`.
pub open spec fn welcome_message() -> Seq<char> {
    "rusteze editor -- version 0.1.0"@
}

/// `n` space characters.
pub open spec fn spaces(n: nat) -> Seq<char> {
    Seq::new(n, |i: int| ' ')
}

/// The left padding that centers the message: half the leftover width,
/// clamped to zero when the terminal is narrower than the message.
pub open spec fn banner_padding(width: nat) -> nat {
    if width >= welcome_message().len() {
        ((width - welcome_message().len()) / 2) as nat
    } else {
        0
    }
}

/// The spaces written between the leading tilde and the message: one
/// fewer than the padding, since the tilde takes the first column.
pub open spec fn banner_leading_spaces(width: nat) -> nat {
    let p = banner_padding(width);
    if p > 0 {
        (p - 1) as nat
    } else {
        0
    }
}

/// The full banner row: a tilde, the leading spaces and the message,
/// truncated to the viewport width so it never wraps.
pub open spec fn banner_row(width: nat) -> Seq<char> {
    let full = seq!['~'] + spaces(banner_leading_spaces(width)) + welcome_message();
    if full.len() <= width {
        full
    } else {
        full.take(width as int)
    }
}

/// Builds the banner row for a viewport of the given width.
pub fn output_welcome(width: usize) -> (r: String)
    ensures
        r@ == banner_row(width as nat),
{
    proof {
        reveal_strlit("rusteze editor -- version 0.1.0");
        reveal_strlit("~");
        reveal_strlit(" ");
    }
    let message: &str = "rusteze editor -- version 0.1.0";
    assert(message@.len() == 31);
    let padding: usize = if width >= 31 {
        (width - 31) / 2
    } else {
        0
    };
    assert(padding == banner_padding(width as nat));
    let lead: usize = if padding > 0 {
        padding - 1
    } else {
        0
    };
    let mut row = String::from_str("~");
    let mut i: usize = 0;
    proof {
        assert(row@ =~= seq!['~'] + spaces(0));
    }
    while i < lead
        invariant
            i <= lead,
            row@ == seq!['~'] + spaces(i as nat),
        decreases lead - i,
    {
        row.append(" ");
        i = i + 1;
        proof {
            reveal_strlit(" ");
            assert(row@ =~= seq!['~'] + spaces(i as nat));
        }
    }
    row.append(message);
    proof {
        assert(row@ =~= seq!['~'] + spaces(lead as nat) + welcome_message());
    }
    let full_len: usize = 32 + lead;
    assert(row@.len() == full_len);
    if full_len <= width {
        row
    } else {
        let truncated = row.as_str().substring_char(0, width);
        proof {
            assert(truncated@ =~= banner_row(width as nat));
        }
        truncated.to_owned()
    }
}

/// Banner placement: the printed banner row never exceeds the viewport
/// width, and on any viewport at all it is left-anchored with a tilde.
pub proof fn lemma_banner_fits(width: nat)
    ensures
        banner_row(width).len() <= width,
        width > 0 ==> banner_row(width).len() > 0,
        width > 0 ==> banner_row(width)[0] == '~',
{
}

} // verus!
