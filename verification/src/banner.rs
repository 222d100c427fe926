//! The welcome banner: the product line, centred on the screen behind a
//! tilde, and cut to the width of the screen.

use vstd::prelude::*;

verus! {

/// The name of the product, as the banner shows it.
pub const NAME: &'static str = "term_editor";

/// The version of the product, as the banner shows it.
pub const VERSION: &'static str = "0.1.0";

/// The product line: the name, the words ` editor -- version `, the version.
pub open spec fn welcome_message(name: Seq<char>, version: Seq<char>) -> Seq<char> {
    name + " editor -- version "@ + version
}

/// The number of blanks between the tilde and a message of `length`
/// characters on a screen `width` columns wide: half of the room that the
/// message leaves, less one for the tilde, and none where that would be
/// negative or the message does not fit.
pub open spec fn banner_padding(width: nat, length: nat) -> nat {
    if width > length && (width - length) / 2 >= 1 {
        ((width - length) / 2 - 1) as nat
    } else {
        0
    }
}

/// A run of `count` blanks.
pub open spec fn blanks(count: nat) -> Seq<char> {
    Seq::new(count, |i: int| ' ')
}

/// The banner before it is cut: a tilde, the padding, the message.
pub open spec fn banner_row(name: Seq<char>, version: Seq<char>, width: nat) -> Seq<char> {
    let message = welcome_message(name, version);
    seq!['~'] + blanks(banner_padding(width, message.len())) + message
}

/// The banner: `banner_row`, cut to the first `width` characters where it is
/// longer than that.
pub open spec fn banner_text(name: Seq<char>, version: Seq<char>, width: nat) -> Seq<char> {
    let row = banner_row(name, version, width);
    if row.len() <= width {
        row
    } else {
        row.take(width as int)
    }
}

/// Builds the welcome banner for a screen `width` columns wide.
pub fn welcome_banner(name: &str, version: &str, width: u16) -> (banner: String)
    ensures
        banner@ == banner_text(name@, version@, width as nat),
        banner@.len() <= width,
{
    let width: usize = width as usize;
    let mut message = String::from_str(name);
    message.append(" editor -- version ");
    message.append(version);
    let length: usize = message.as_str().unicode_len();
    let padding: usize = if width > length && (width - length) / 2 >= 1 {
        (width - length) / 2 - 1
    } else {
        0
    };
    let mut row = String::from_str("~");
    proof {
        reveal_strlit("~");
        reveal_strlit(" ");
    }
    let mut count: usize = 0;
    while count < padding
        invariant
            count <= padding,
            row@ == seq!['~'] + blanks(count as nat),
            " "@ == seq![' '],
        decreases padding - count,
    {
        row.append(" ");
        count = count + 1;
    }
    row.append(message.as_str());
    let total: usize = row.as_str().unicode_len();
    if total > width {
        String::from_str(row.as_str().substring_char(0, width))
    } else {
        row
    }
}

/// The banner never runs past the screen. Where the message fits with room
/// for its tilde and padding, the banner is the whole row; on a screen no
/// wider than the message it is the start of tilde and message, with no
/// padding.
pub proof fn lemma_banner_fits(name: Seq<char>, version: Seq<char>, width: nat)
    ensures
        banner_text(name, version, width).len() <= width,
        width > welcome_message(name, version).len() ==> banner_text(name, version, width)
            == banner_row(name, version, width),
        width <= welcome_message(name, version).len() ==> banner_text(name, version, width) == (
        seq!['~'] + welcome_message(name, version)).take(width as int),
{
}

} // verus!
