//! The letters of the title, drawn in block characters.

use vstd::prelude::*;

verus! {

/// The thirteen letters of the title, each five lines high; the lines of a
/// letter are separated by line feeds.
pub const TITLE_LETTERS: [&'static str; 13] = [
    "‚Ėą‚Ėą‚Ėą‚Ėą\n‚Ėą   \n‚Ėą‚Ėą‚Ėą \n‚Ėą   \n‚Ėą   ",
    " ‚Ėą‚Ėą \n‚Ėą  ‚Ėą\n‚Ėą‚Ėą‚Ėą‚Ėą\n‚Ėą  ‚Ėą\n‚Ėą  ‚Ėą",
    "‚Ėą   \n‚Ėą   \n‚Ėą   \n‚Ėą   \n‚Ėą‚Ėą‚Ėą‚Ėą",
    "‚Ėą   \n‚Ėą   \n‚Ėą   \n‚Ėą   \n‚Ėą‚Ėą‚Ėą‚Ėą",
    "‚Ėą‚Ėą‚Ėą\n ‚Ėą \n ‚Ėą \n ‚Ėą \n‚Ėą‚Ėą‚Ėą",
    "‚Ėą  ‚Ėą\n‚Ėą‚Ėą ‚Ėą\n‚Ėą ‚Ėą‚Ėą\n‚Ėą  ‚Ėą\n‚Ėą  ‚Ėą",
    " ‚Ėą‚Ėą‚Ėą \n‚Ėą    \n‚Ėą  ‚Ėą‚Ėą\n‚Ėą   ‚Ėą\n ‚Ėą‚Ėą‚Ėą ",
    "‚Ėą‚Ėą‚Ėą \n‚Ėą  ‚Ėą\n‚Ėą‚Ėą‚Ėą \n‚Ėą  ‚Ėą\n‚Ėą‚Ėą‚Ėą ",
    "‚Ėą   \n‚Ėą   \n‚Ėą   \n‚Ėą   \n‚Ėą‚Ėą‚Ėą‚Ėą",
    " ‚Ėą‚Ėą \n‚Ėą  ‚Ėą\n‚Ėą  ‚Ėą\n‚Ėą  ‚Ėą\n ‚Ėą‚Ėą ",
    " ‚Ėą‚Ėą‚Ėą\n‚Ėą   \n‚Ėą   \n‚Ėą   \n ‚Ėą‚Ėą‚Ėą",
    "‚Ėą  ‚Ėą\n‚Ėą ‚Ėą \n‚Ėą‚Ėą  \n‚Ėą ‚Ėą \n‚Ėą  ‚Ėą",
    " ‚Ėą‚Ėą‚Ėą\n‚Ėą   \n ‚Ėą‚Ėą \n   ‚Ėą\n‚Ėą‚Ėą‚Ėą ",
];

} // verus!
