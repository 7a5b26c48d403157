//! Code page 437: the glyph index of a Unicode character in the 8x8 console font.

use vstd::prelude::*;

verus! {

/// Glyph index in code page 437 of `c`. Printable ASCII keeps its code;
/// the other 161 characters of the code page map to their slot; every other
/// character maps to 254 (the black-square glyph used for unknown characters).
#[verifier::opaque]
pub open spec fn cp437_index(c: char) -> u16 {
    match c {
        '\u{0020}'..='\u{007e}' => c as u16,
        '\u{0000}' => 0x00, // NUL
        '\u{263a}' => 0x01, // WHITE SMILING FACE
        '\u{263b}' => 0x02, // BLACK SMILING FACE
        '\u{2665}' => 0x03, // BLACK HEART SUIT
        '\u{2666}' => 0x04, // BLACK DIAMOND SUIT
        '\u{2663}' => 0x05, // BLACK CLUB SUIT
        '\u{2660}' => 0x06, // BLACK SPADE SUIT
        '\u{2022}' => 0x07, // BULLET
        '\u{25d8}' => 0x08, // INVERSE BULLET
        '\u{25cb}' => 0x09, // WHITE CIRCLE
        '\u{25d9}' => 0x0a, // INVERSE WHITE CIRCLE
        '\u{2642}' => 0x0b, // MALE SIGN
        '\u{2640}' => 0x0c, // FEMALE SIGN
        '\u{266a}' => 0x0d, // EIGHTH NOTE
        '\u{266b}' => 0x0e, // BEAMED EIGHTH NOTES
        '\u{263c}' => 0x0f, // WHITE SUN WITH RAYS
        '\u{25ba}' => 0x10, // BLACK RIGHT-POINTING POINTER
        '\u{25c4}' => 0x11, // BLACK LEFT-POINTING POINTER
        '\u{2195}' => 0x12, // UP DOWN ARROW
        '\u{203c}' => 0x13, // DOUBLE EXCLAMATION MARK
        '\u{00b6}' => 0x14, // PILCROW SIGN
        '\u{00a7}' => 0x15, // SECTION SIGN
        '\u{25ac}' => 0x16, // BLACK RECTANGLE
        '\u{21a8}' => 0x17, // UP DOWN ARROW WITH BASE
        '\u{2191}' => 0x18, // UPWARDS ARROW
        '\u{2193}' => 0x19, // DOWNWARDS ARROW
        '\u{2192}' => 0x1a, // RIGHTWARDS ARROW
        '\u{2190}' => 0x1b, // LEFTWARDS ARROW
        '\u{221f}' => 0x1c, // RIGHT ANGLE
        '\u{2194}' => 0x1d, // LEFT RIGHT ARROW
        '\u{25b2}' => 0x1e, // BLACK UP-POINTING TRIANGLE
        '\u{25bc}' => 0x1f, // BLACK DOWN-POINTING TRIANGLE
        '\u{2302}' => 0x7f, // HOUSE
        '\u{00c7}' => 0x80, // LATIN CAPITAL LETTER C WITH CEDILLA
        '\u{00fc}' => 0x81, // LATIN SMALL LETTER U WITH DIAERESIS
        '\u{00e9}' => 0x82, // LATIN SMALL LETTER E WITH ACUTE
        '\u{00e2}' => 0x83, // LATIN SMALL LETTER A WITH CIRCUMFLEX
        '\u{00e4}' => 0x84, // LATIN SMALL LETTER A WITH DIAERESIS
        '\u{00e0}' => 0x85, // LATIN SMALL LETTER A WITH GRAVE
        '\u{00e5}' => 0x86, // LATIN SMALL LETTER A WITH RING ABOVE
        '\u{00e7}' => 0x87, // LATIN SMALL LETTER C WITH CEDILLA
        '\u{00ea}' => 0x88, // LATIN SMALL LETTER E WITH CIRCUMFLEX
        '\u{00eb}' => 0x89, // LATIN SMALL LETTER E WITH DIAERESIS
        '\u{00e8}' => 0x8a, // LATIN SMALL LETTER E WITH GRAVE
        '\u{00ef}' => 0x8b, // LATIN SMALL LETTER I WITH DIAERESIS
        '\u{00ee}' => 0x8c, // LATIN SMALL LETTER I WITH CIRCUMFLEX
        '\u{00ec}' => 0x8d, // LATIN SMALL LETTER I WITH GRAVE
        '\u{00c4}' => 0x8e, // LATIN CAPITAL LETTER A WITH DIAERESIS
        '\u{00c5}' => 0x8f, // LATIN CAPITAL LETTER A WITH RING ABOVE
        '\u{00c9}' => 0x90, // LATIN CAPITAL LETTER E WITH ACUTE
        '\u{00e6}' => 0x91, // LATIN SMALL LETTER AE
        '\u{00c6}' => 0x92, // LATIN CAPITAL LETTER AE
        '\u{00f4}' => 0x93, // LATIN SMALL LETTER O WITH CIRCUMFLEX
        '\u{00f6}' => 0x94, // LATIN SMALL LETTER O WITH DIAERESIS
        '\u{00f2}' => 0x95, // LATIN SMALL LETTER O WITH GRAVE
        '\u{00fb}' => 0x96, // LATIN SMALL LETTER U WITH CIRCUMFLEX
        '\u{00f9}' => 0x97, // LATIN SMALL LETTER U WITH GRAVE
        '\u{00ff}' => 0x98, // LATIN SMALL LETTER Y WITH DIAERESIS
        '\u{00d6}' => 0x99, // LATIN CAPITAL LETTER O WITH DIAERESIS
        '\u{00dc}' => 0x9a, // LATIN CAPITAL LETTER U WITH DIAERESIS
        '\u{00a2}' => 0x9b, // CENT SIGN
        '\u{00a3}' => 0x9c, // POUND SIGN
        '\u{00a5}' => 0x9d, // YEN SIGN
        '\u{20a7}' => 0x9e, // PESETA SIGN
        '\u{0192}' => 0x9f, // LATIN SMALL LETTER F WITH HOOK
        '\u{00e1}' => 0xa0, // LATIN SMALL LETTER A WITH ACUTE
        '\u{00ed}' => 0xa1, // LATIN SMALL LETTER I WITH ACUTE
        '\u{00f3}' => 0xa2, // LATIN SMALL LETTER O WITH ACUTE
        '\u{00fa}' => 0xa3, // LATIN SMALL LETTER U WITH ACUTE
        '\u{00f1}' => 0xa4, // LATIN SMALL LETTER N WITH TILDE
        '\u{00d1}' => 0xa5, // LATIN CAPITAL LETTER N WITH TILDE
        '\u{00aa}' => 0xa6, // FEMININE ORDINAL INDICATOR
        '\u{00ba}' => 0xa7, // MASCULINE ORDINAL INDICATOR
        '\u{00bf}' => 0xa8, // INVERTED QUESTION MARK
        '\u{2310}' => 0xa9, // REVERSED NOT SIGN
        '\u{00ac}' => 0xaa, // NOT SIGN
        '\u{00bd}' => 0xab, // VULGAR FRACTION ONE HALF
        '\u{00bc}' => 0xac, // VULGAR FRACTION ONE QUARTER
        '\u{00a1}' => 0xad, // INVERTED EXCLAMATION MARK
        '\u{00ab}' => 0xae, // LEFT-POINTING DOUBLE ANGLE QUOTATION MARK
        '\u{00bb}' => 0xaf, // RIGHT-POINTING DOUBLE ANGLE QUOTATION MARK
        '\u{2591}' => 0xb0, // LIGHT SHADE
        '\u{2592}' => 0xb1, // MEDIUM SHADE
        '\u{2593}' => 0xb2, // DARK SHADE
        '\u{2502}' => 0xb3, // BOX DRAWINGS LIGHT VERTICAL
        '\u{2524}' => 0xb4, // BOX DRAWINGS LIGHT VERTICAL AND LEFT
        '\u{2561}' => 0xb5, // BOX DRAWINGS VERTICAL SINGLE AND LEFT DOUBLE
        '\u{2562}' => 0xb6, // BOX DRAWINGS VERTICAL DOUBLE AND LEFT SINGLE
        '\u{2556}' => 0xb7, // BOX DRAWINGS DOWN DOUBLE AND LEFT SINGLE
        '\u{2555}' => 0xb8, // BOX DRAWINGS DOWN SINGLE AND LEFT DOUBLE
        '\u{2563}' => 0xb9, // BOX DRAWINGS DOUBLE VERTICAL AND LEFT
        '\u{2551}' => 0xba, // BOX DRAWINGS DOUBLE VERTICAL
        '\u{2557}' => 0xbb, // BOX DRAWINGS DOUBLE DOWN AND LEFT
        '\u{255d}' => 0xbc, // BOX DRAWINGS DOUBLE UP AND LEFT
        '\u{255c}' => 0xbd, // BOX DRAWINGS UP DOUBLE AND LEFT SINGLE
        '\u{255b}' => 0xbe, // BOX DRAWINGS UP SINGLE AND LEFT DOUBLE
        '\u{2510}' => 0xbf, // BOX DRAWINGS LIGHT DOWN AND LEFT
        '\u{2514}' => 0xc0, // BOX DRAWINGS LIGHT UP AND RIGHT
        '\u{2534}' => 0xc1, // BOX DRAWINGS LIGHT UP AND HORIZONTAL
        '\u{252c}' => 0xc2, // BOX DRAWINGS LIGHT DOWN AND HORIZONTAL
        '\u{251c}' => 0xc3, // BOX DRAWINGS LIGHT VERTICAL AND RIGHT
        '\u{2500}' => 0xc4, // BOX DRAWINGS LIGHT HORIZONTAL
        '\u{253c}' => 0xc5, // BOX DRAWINGS LIGHT VERTICAL AND HORIZONTAL
        '\u{255e}' => 0xc6, // BOX DRAWINGS VERTICAL SINGLE AND RIGHT DOUBLE
        '\u{255f}' => 0xc7, // BOX DRAWINGS VERTICAL DOUBLE AND RIGHT SINGLE
        '\u{255a}' => 0xc8, // BOX DRAWINGS DOUBLE UP AND RIGHT
        '\u{2554}' => 0xc9, // BOX DRAWINGS DOUBLE DOWN AND RIGHT
        '\u{2569}' => 0xca, // BOX DRAWINGS DOUBLE UP AND HORIZONTAL
        '\u{2566}' => 0xcb, // BOX DRAWINGS DOUBLE DOWN AND HORIZONTAL
        '\u{2560}' => 0xcc, // BOX DRAWINGS DOUBLE VERTICAL AND RIGHT
        '\u{2550}' => 0xcd, // BOX DRAWINGS DOUBLE HORIZONTAL
        '\u{256c}' => 0xce, // BOX DRAWINGS DOUBLE VERTICAL AND HORIZONTAL
        '\u{2567}' => 0xcf, // BOX DRAWINGS UP SINGLE AND HORIZONTAL DOUBLE
        '\u{2568}' => 0xd0, // BOX DRAWINGS UP DOUBLE AND HORIZONTAL SINGLE
        '\u{2564}' => 0xd1, // BOX DRAWINGS DOWN SINGLE AND HORIZONTAL DOUBLE
        '\u{2565}' => 0xd2, // BOX DRAWINGS DOWN DOUBLE AND HORIZONTAL SINGLE
        '\u{2559}' => 0xd3, // BOX DRAWINGS UP DOUBLE AND RIGHT SINGLE
        '\u{2558}' => 0xd4, // BOX DRAWINGS UP SINGLE AND RIGHT DOUBLE
        '\u{2552}' => 0xd5, // BOX DRAWINGS DOWN SINGLE AND RIGHT DOUBLE
        '\u{2553}' => 0xd6, // BOX DRAWINGS DOWN DOUBLE AND RIGHT SINGLE
        '\u{256b}' => 0xd7, // BOX DRAWINGS VERTICAL DOUBLE AND HORIZONTAL SINGLE
        '\u{256a}' => 0xd8, // BOX DRAWINGS VERTICAL SINGLE AND HORIZONTAL DOUBLE
        '\u{2518}' => 0xd9, // BOX DRAWINGS LIGHT UP AND LEFT
        '\u{250c}' => 0xda, // BOX DRAWINGS LIGHT DOWN AND RIGHT
        '\u{2588}' => 0xdb, // FULL BLOCK
        '\u{2584}' => 0xdc, // LOWER HALF BLOCK
        '\u{258c}' => 0xdd, // LEFT HALF BLOCK
        '\u{2590}' => 0xde, // RIGHT HALF BLOCK
        '\u{2580}' => 0xdf, // UPPER HALF BLOCK
        '\u{03b1}' => 0xe0, // GREEK SMALL LETTER ALPHA
        '\u{00df}' => 0xe1, // LATIN SMALL LETTER SHARP S
        '\u{0393}' => 0xe2, // GREEK CAPITAL LETTER GAMMA
        '\u{03c0}' => 0xe3, // GREEK SMALL LETTER PI
        '\u{03a3}' => 0xe4, // GREEK CAPITAL LETTER SIGMA
        '\u{03c3}' => 0xe5, // GREEK SMALL LETTER SIGMA
        '\u{00b5}' => 0xe6, // MICRO SIGN
        '\u{03c4}' => 0xe7, // GREEK SMALL LETTER TAU
        '\u{03a6}' => 0xe8, // GREEK CAPITAL LETTER PHI
        '\u{0398}' => 0xe9, // GREEK CAPITAL LETTER THETA
        '\u{03a9}' => 0xea, // GREEK CAPITAL LETTER OMEGA
        '\u{03b4}' => 0xeb, // GREEK SMALL LETTER DELTA
        '\u{221e}' => 0xec, // INFINITY
        '\u{03c6}' => 0xed, // GREEK SMALL LETTER PHI
        '\u{03b5}' => 0xee, // GREEK SMALL LETTER EPSILON
        '\u{2229}' => 0xef, // INTERSECTION
        '\u{2261}' => 0xf0, // IDENTICAL TO
        '\u{00b1}' => 0xf1, // PLUS-MINUS SIGN
        '\u{2265}' => 0xf2, // GREATER-THAN OR EQUAL TO
        '\u{2264}' => 0xf3, // LESS-THAN OR EQUAL TO
        '\u{2320}' => 0xf4, // TOP HALF INTEGRAL
        '\u{2321}' => 0xf5, // BOTTOM HALF INTEGRAL
        '\u{00f7}' => 0xf6, // DIVISION SIGN
        '\u{2248}' => 0xf7, // ALMOST EQUAL TO
        '\u{00b0}' => 0xf8, // DEGREE SIGN
        '\u{2219}' => 0xf9, // BULLET OPERATOR
        '\u{00b7}' => 0xfa, // MIDDLE DOT
        '\u{221a}' => 0xfb, // SQUARE ROOT
        '\u{207f}' => 0xfc, // SUPERSCRIPT LATIN SMALL LETTER N
        '\u{00b2}' => 0xfd, // SUPERSCRIPT TWO
        '\u{25a0}' => 0xfe, // BLACK SQUARE
        '\u{25a1}' => 0xff, // WHITE SQUARE
        _ => 254,
    }
}

/// The character that code page 437 places in glyph slot `n`: printable
/// ASCII in its own slot, the other 161 characters of the code page in
/// theirs.
pub open spec fn cp437_char(n: u8) -> char {
    match n {
        0x00 => '\u{0000}', // NUL
        0x01 => '\u{263a}', // WHITE SMILING FACE
        0x02 => '\u{263b}', // BLACK SMILING FACE
        0x03 => '\u{2665}', // BLACK HEART SUIT
        0x04 => '\u{2666}', // BLACK DIAMOND SUIT
        0x05 => '\u{2663}', // BLACK CLUB SUIT
        0x06 => '\u{2660}', // BLACK SPADE SUIT
        0x07 => '\u{2022}', // BULLET
        0x08 => '\u{25d8}', // INVERSE BULLET
        0x09 => '\u{25cb}', // WHITE CIRCLE
        0x0a => '\u{25d9}', // INVERSE WHITE CIRCLE
        0x0b => '\u{2642}', // MALE SIGN
        0x0c => '\u{2640}', // FEMALE SIGN
        0x0d => '\u{266a}', // EIGHTH NOTE
        0x0e => '\u{266b}', // BEAMED EIGHTH NOTES
        0x0f => '\u{263c}', // WHITE SUN WITH RAYS
        0x10 => '\u{25ba}', // BLACK RIGHT-POINTING POINTER
        0x11 => '\u{25c4}', // BLACK LEFT-POINTING POINTER
        0x12 => '\u{2195}', // UP DOWN ARROW
        0x13 => '\u{203c}', // DOUBLE EXCLAMATION MARK
        0x14 => '\u{00b6}', // PILCROW SIGN
        0x15 => '\u{00a7}', // SECTION SIGN
        0x16 => '\u{25ac}', // BLACK RECTANGLE
        0x17 => '\u{21a8}', // UP DOWN ARROW WITH BASE
        0x18 => '\u{2191}', // UPWARDS ARROW
        0x19 => '\u{2193}', // DOWNWARDS ARROW
        0x1a => '\u{2192}', // RIGHTWARDS ARROW
        0x1b => '\u{2190}', // LEFTWARDS ARROW
        0x1c => '\u{221f}', // RIGHT ANGLE
        0x1d => '\u{2194}', // LEFT RIGHT ARROW
        0x1e => '\u{25b2}', // BLACK UP-POINTING TRIANGLE
        0x1f => '\u{25bc}', // BLACK DOWN-POINTING TRIANGLE
        0x7f => '\u{2302}', // HOUSE
        0x80 => '\u{00c7}', // LATIN CAPITAL LETTER C WITH CEDILLA
        0x81 => '\u{00fc}', // LATIN SMALL LETTER U WITH DIAERESIS
        0x82 => '\u{00e9}', // LATIN SMALL LETTER E WITH ACUTE
        0x83 => '\u{00e2}', // LATIN SMALL LETTER A WITH CIRCUMFLEX
        0x84 => '\u{00e4}', // LATIN SMALL LETTER A WITH DIAERESIS
        0x85 => '\u{00e0}', // LATIN SMALL LETTER A WITH GRAVE
        0x86 => '\u{00e5}', // LATIN SMALL LETTER A WITH RING ABOVE
        0x87 => '\u{00e7}', // LATIN SMALL LETTER C WITH CEDILLA
        0x88 => '\u{00ea}', // LATIN SMALL LETTER E WITH CIRCUMFLEX
        0x89 => '\u{00eb}', // LATIN SMALL LETTER E WITH DIAERESIS
        0x8a => '\u{00e8}', // LATIN SMALL LETTER E WITH GRAVE
        0x8b => '\u{00ef}', // LATIN SMALL LETTER I WITH DIAERESIS
        0x8c => '\u{00ee}', // LATIN SMALL LETTER I WITH CIRCUMFLEX
        0x8d => '\u{00ec}', // LATIN SMALL LETTER I WITH GRAVE
        0x8e => '\u{00c4}', // LATIN CAPITAL LETTER A WITH DIAERESIS
        0x8f => '\u{00c5}', // LATIN CAPITAL LETTER A WITH RING ABOVE
        0x90 => '\u{00c9}', // LATIN CAPITAL LETTER E WITH ACUTE
        0x91 => '\u{00e6}', // LATIN SMALL LETTER AE
        0x92 => '\u{00c6}', // LATIN CAPITAL LETTER AE
        0x93 => '\u{00f4}', // LATIN SMALL LETTER O WITH CIRCUMFLEX
        0x94 => '\u{00f6}', // LATIN SMALL LETTER O WITH DIAERESIS
        0x95 => '\u{00f2}', // LATIN SMALL LETTER O WITH GRAVE
        0x96 => '\u{00fb}', // LATIN SMALL LETTER U WITH CIRCUMFLEX
        0x97 => '\u{00f9}', // LATIN SMALL LETTER U WITH GRAVE
        0x98 => '\u{00ff}', // LATIN SMALL LETTER Y WITH DIAERESIS
        0x99 => '\u{00d6}', // LATIN CAPITAL LETTER O WITH DIAERESIS
        0x9a => '\u{00dc}', // LATIN CAPITAL LETTER U WITH DIAERESIS
        0x9b => '\u{00a2}', // CENT SIGN
        0x9c => '\u{00a3}', // POUND SIGN
        0x9d => '\u{00a5}', // YEN SIGN
        0x9e => '\u{20a7}', // PESETA SIGN
        0x9f => '\u{0192}', // LATIN SMALL LETTER F WITH HOOK
        0xa0 => '\u{00e1}', // LATIN SMALL LETTER A WITH ACUTE
        0xa1 => '\u{00ed}', // LATIN SMALL LETTER I WITH ACUTE
        0xa2 => '\u{00f3}', // LATIN SMALL LETTER O WITH ACUTE
        0xa3 => '\u{00fa}', // LATIN SMALL LETTER U WITH ACUTE
        0xa4 => '\u{00f1}', // LATIN SMALL LETTER N WITH TILDE
        0xa5 => '\u{00d1}', // LATIN CAPITAL LETTER N WITH TILDE
        0xa6 => '\u{00aa}', // FEMININE ORDINAL INDICATOR
        0xa7 => '\u{00ba}', // MASCULINE ORDINAL INDICATOR
        0xa8 => '\u{00bf}', // INVERTED QUESTION MARK
        0xa9 => '\u{2310}', // REVERSED NOT SIGN
        0xaa => '\u{00ac}', // NOT SIGN
        0xab => '\u{00bd}', // VULGAR FRACTION ONE HALF
        0xac => '\u{00bc}', // VULGAR FRACTION ONE QUARTER
        0xad => '\u{00a1}', // INVERTED EXCLAMATION MARK
        0xae => '\u{00ab}', // LEFT-POINTING DOUBLE ANGLE QUOTATION MARK
        0xaf => '\u{00bb}', // RIGHT-POINTING DOUBLE ANGLE QUOTATION MARK
        0xb0 => '\u{2591}', // LIGHT SHADE
        0xb1 => '\u{2592}', // MEDIUM SHADE
        0xb2 => '\u{2593}', // DARK SHADE
        0xb3 => '\u{2502}', // BOX DRAWINGS LIGHT VERTICAL
        0xb4 => '\u{2524}', // BOX DRAWINGS LIGHT VERTICAL AND LEFT
        0xb5 => '\u{2561}', // BOX DRAWINGS VERTICAL SINGLE AND LEFT DOUBLE
        0xb6 => '\u{2562}', // BOX DRAWINGS VERTICAL DOUBLE AND LEFT SINGLE
        0xb7 => '\u{2556}', // BOX DRAWINGS DOWN DOUBLE AND LEFT SINGLE
        0xb8 => '\u{2555}', // BOX DRAWINGS DOWN SINGLE AND LEFT DOUBLE
        0xb9 => '\u{2563}', // BOX DRAWINGS DOUBLE VERTICAL AND LEFT
        0xba => '\u{2551}', // BOX DRAWINGS DOUBLE VERTICAL
        0xbb => '\u{2557}', // BOX DRAWINGS DOUBLE DOWN AND LEFT
        0xbc => '\u{255d}', // BOX DRAWINGS DOUBLE UP AND LEFT
        0xbd => '\u{255c}', // BOX DRAWINGS UP DOUBLE AND LEFT SINGLE
        0xbe => '\u{255b}', // BOX DRAWINGS UP SINGLE AND LEFT DOUBLE
        0xbf => '\u{2510}', // BOX DRAWINGS LIGHT DOWN AND LEFT
        0xc0 => '\u{2514}', // BOX DRAWINGS LIGHT UP AND RIGHT
        0xc1 => '\u{2534}', // BOX DRAWINGS LIGHT UP AND HORIZONTAL
        0xc2 => '\u{252c}', // BOX DRAWINGS LIGHT DOWN AND HORIZONTAL
        0xc3 => '\u{251c}', // BOX DRAWINGS LIGHT VERTICAL AND RIGHT
        0xc4 => '\u{2500}', // BOX DRAWINGS LIGHT HORIZONTAL
        0xc5 => '\u{253c}', // BOX DRAWINGS LIGHT VERTICAL AND HORIZONTAL
        0xc6 => '\u{255e}', // BOX DRAWINGS VERTICAL SINGLE AND RIGHT DOUBLE
        0xc7 => '\u{255f}', // BOX DRAWINGS VERTICAL DOUBLE AND RIGHT SINGLE
        0xc8 => '\u{255a}', // BOX DRAWINGS DOUBLE UP AND RIGHT
        0xc9 => '\u{2554}', // BOX DRAWINGS DOUBLE DOWN AND RIGHT
        0xca => '\u{2569}', // BOX DRAWINGS DOUBLE UP AND HORIZONTAL
        0xcb => '\u{2566}', // BOX DRAWINGS DOUBLE DOWN AND HORIZONTAL
        0xcc => '\u{2560}', // BOX DRAWINGS DOUBLE VERTICAL AND RIGHT
        0xcd => '\u{2550}', // BOX DRAWINGS DOUBLE HORIZONTAL
        0xce => '\u{256c}', // BOX DRAWINGS DOUBLE VERTICAL AND HORIZONTAL
        0xcf => '\u{2567}', // BOX DRAWINGS UP SINGLE AND HORIZONTAL DOUBLE
        0xd0 => '\u{2568}', // BOX DRAWINGS UP DOUBLE AND HORIZONTAL SINGLE
        0xd1 => '\u{2564}', // BOX DRAWINGS DOWN SINGLE AND HORIZONTAL DOUBLE
        0xd2 => '\u{2565}', // BOX DRAWINGS DOWN DOUBLE AND HORIZONTAL SINGLE
        0xd3 => '\u{2559}', // BOX DRAWINGS UP DOUBLE AND RIGHT SINGLE
        0xd4 => '\u{2558}', // BOX DRAWINGS UP SINGLE AND RIGHT DOUBLE
        0xd5 => '\u{2552}', // BOX DRAWINGS DOWN SINGLE AND RIGHT DOUBLE
        0xd6 => '\u{2553}', // BOX DRAWINGS DOWN DOUBLE AND RIGHT SINGLE
        0xd7 => '\u{256b}', // BOX DRAWINGS VERTICAL DOUBLE AND HORIZONTAL SINGLE
        0xd8 => '\u{256a}', // BOX DRAWINGS VERTICAL SINGLE AND HORIZONTAL DOUBLE
        0xd9 => '\u{2518}', // BOX DRAWINGS LIGHT UP AND LEFT
        0xda => '\u{250c}', // BOX DRAWINGS LIGHT DOWN AND RIGHT
        0xdb => '\u{2588}', // FULL BLOCK
        0xdc => '\u{2584}', // LOWER HALF BLOCK
        0xdd => '\u{258c}', // LEFT HALF BLOCK
        0xde => '\u{2590}', // RIGHT HALF BLOCK
        0xdf => '\u{2580}', // UPPER HALF BLOCK
        0xe0 => '\u{03b1}', // GREEK SMALL LETTER ALPHA
        0xe1 => '\u{00df}', // LATIN SMALL LETTER SHARP S
        0xe2 => '\u{0393}', // GREEK CAPITAL LETTER GAMMA
        0xe3 => '\u{03c0}', // GREEK SMALL LETTER PI
        0xe4 => '\u{03a3}', // GREEK CAPITAL LETTER SIGMA
        0xe5 => '\u{03c3}', // GREEK SMALL LETTER SIGMA
        0xe6 => '\u{00b5}', // MICRO SIGN
        0xe7 => '\u{03c4}', // GREEK SMALL LETTER TAU
        0xe8 => '\u{03a6}', // GREEK CAPITAL LETTER PHI
        0xe9 => '\u{0398}', // GREEK CAPITAL LETTER THETA
        0xea => '\u{03a9}', // GREEK CAPITAL LETTER OMEGA
        0xeb => '\u{03b4}', // GREEK SMALL LETTER DELTA
        0xec => '\u{221e}', // INFINITY
        0xed => '\u{03c6}', // GREEK SMALL LETTER PHI
        0xee => '\u{03b5}', // GREEK SMALL LETTER EPSILON
        0xef => '\u{2229}', // INTERSECTION
        0xf0 => '\u{2261}', // IDENTICAL TO
        0xf1 => '\u{00b1}', // PLUS-MINUS SIGN
        0xf2 => '\u{2265}', // GREATER-THAN OR EQUAL TO
        0xf3 => '\u{2264}', // LESS-THAN OR EQUAL TO
        0xf4 => '\u{2320}', // TOP HALF INTEGRAL
        0xf5 => '\u{2321}', // BOTTOM HALF INTEGRAL
        0xf6 => '\u{00f7}', // DIVISION SIGN
        0xf7 => '\u{2248}', // ALMOST EQUAL TO
        0xf8 => '\u{00b0}', // DEGREE SIGN
        0xf9 => '\u{2219}', // BULLET OPERATOR
        0xfa => '\u{00b7}', // MIDDLE DOT
        0xfb => '\u{221a}', // SQUARE ROOT
        0xfc => '\u{207f}', // SUPERSCRIPT LATIN SMALL LETTER N
        0xfd => '\u{00b2}', // SUPERSCRIPT TWO
        0xfe => '\u{25a0}', // BLACK SQUARE
        0xff => '\u{25a1}', // WHITE SQUARE
        _ => n as char, // printable ASCII, 0x20..=0x7e
    }
}

/// The glyph table is a one-to-one correspondence between the 256
/// characters of code page 437 and the glyph slots 0..=255: every slot is
/// the index of its own character, every character with an index other
/// than 254 is the character of its slot, and every character outside the
/// code page falls back to slot 254 (the black square U+25A0).
pub proof fn lemma_cp437_table()
    ensures
        forall|n: u8| cp437_index(#[trigger] cp437_char(n)) == n,
        forall|c: char| #[trigger] cp437_index(c) <= 255,
        forall|c: char| #[trigger] cp437_index(c) != 254 ==> cp437_char(cp437_index(c) as u8) == c,
        forall|c: char|
            (forall|n: u8| #[trigger] cp437_char(n) != c) ==> #[trigger] cp437_index(c) == 254,
        cp437_char(254) == '\u{25a0}',
{
    reveal(cp437_index);
    assert forall|n: u8| cp437_index(#[trigger] cp437_char(n)) == n by {}
    assert forall|c: char| #[trigger] cp437_index(c) <= 255 by {}
    assert forall|c: char| #[trigger] cp437_index(c) != 254 implies cp437_char(cp437_index(c) as u8)
        == c by {}
    assert forall|c: char| (forall|n: u8| #[trigger] cp437_char(n) != c) implies #[trigger] cp437_index(c) == 254 by {
        if cp437_index(c) != 254 {
            assert(cp437_char(cp437_index(c) as u8) == c);
        }
    }
}

/// Landmarks of code page 437: printable ASCII keeps its code, and the
/// symbols, accented letters, box-drawing and block characters sit in
/// their well-known slots (white smiling face 0x01, house 0x7f, C cedilla
/// 0x80, e acute 0x82, light shade 0xb0, light vertical 0xb3, light
/// horizontal 0xc4, full block 0xdb, alpha 0xe0, black square 0xfe, white
/// square 0xff).
pub proof fn lemma_cp437_landmarks()
    ensures
        forall|c: char| ' ' <= c <= '~' ==> #[trigger] cp437_index(c) == c as u16,
        cp437_index('\u{0000}') == 0x00,
        cp437_index('\u{263a}') == 0x01,
        cp437_index('\u{2302}') == 0x7f,
        cp437_index('\u{00c7}') == 0x80,
        cp437_index('\u{00e9}') == 0x82,
        cp437_index('\u{2591}') == 0xb0,
        cp437_index('\u{2502}') == 0xb3,
        cp437_index('\u{2500}') == 0xc4,
        cp437_index('\u{2588}') == 0xdb,
        cp437_index('\u{03b1}') == 0xe0,
        cp437_index('\u{25a0}') == 0xfe,
        cp437_index('\u{25a1}') == 0xff,
        cp437_index('\u{4e2d}') == 254,
{
    reveal(cp437_index);
}

/// Glyph index in code page 437 of `c` (254 for characters outside it).
pub fn cp437_code(c: char) -> (i: u16)
    ensures
        i == cp437_index(c),
{
    reveal(cp437_index);
    match c {
        '\u{0020}'..='\u{007e}' => (c as u32) as u16,
        '\u{0000}' => 0x00, // NUL
        '\u{263a}' => 0x01, // WHITE SMILING FACE
        '\u{263b}' => 0x02, // BLACK SMILING FACE
        '\u{2665}' => 0x03, // BLACK HEART SUIT
        '\u{2666}' => 0x04, // BLACK DIAMOND SUIT
        '\u{2663}' => 0x05, // BLACK CLUB SUIT
        '\u{2660}' => 0x06, // BLACK SPADE SUIT
        '\u{2022}' => 0x07, // BULLET
        '\u{25d8}' => 0x08, // INVERSE BULLET
        '\u{25cb}' => 0x09, // WHITE CIRCLE
        '\u{25d9}' => 0x0a, // INVERSE WHITE CIRCLE
        '\u{2642}' => 0x0b, // MALE SIGN
        '\u{2640}' => 0x0c, // FEMALE SIGN
        '\u{266a}' => 0x0d, // EIGHTH NOTE
        '\u{266b}' => 0x0e, // BEAMED EIGHTH NOTES
        '\u{263c}' => 0x0f, // WHITE SUN WITH RAYS
        '\u{25ba}' => 0x10, // BLACK RIGHT-POINTING POINTER
        '\u{25c4}' => 0x11, // BLACK LEFT-POINTING POINTER
        '\u{2195}' => 0x12, // UP DOWN ARROW
        '\u{203c}' => 0x13, // DOUBLE EXCLAMATION MARK
        '\u{00b6}' => 0x14, // PILCROW SIGN
        '\u{00a7}' => 0x15, // SECTION SIGN
        '\u{25ac}' => 0x16, // BLACK RECTANGLE
        '\u{21a8}' => 0x17, // UP DOWN ARROW WITH BASE
        '\u{2191}' => 0x18, // UPWARDS ARROW
        '\u{2193}' => 0x19, // DOWNWARDS ARROW
        '\u{2192}' => 0x1a, // RIGHTWARDS ARROW
        '\u{2190}' => 0x1b, // LEFTWARDS ARROW
        '\u{221f}' => 0x1c, // RIGHT ANGLE
        '\u{2194}' => 0x1d, // LEFT RIGHT ARROW
        '\u{25b2}' => 0x1e, // BLACK UP-POINTING TRIANGLE
        '\u{25bc}' => 0x1f, // BLACK DOWN-POINTING TRIANGLE
        '\u{2302}' => 0x7f, // HOUSE
        '\u{00c7}' => 0x80, // LATIN CAPITAL LETTER C WITH CEDILLA
        '\u{00fc}' => 0x81, // LATIN SMALL LETTER U WITH DIAERESIS
        '\u{00e9}' => 0x82, // LATIN SMALL LETTER E WITH ACUTE
        '\u{00e2}' => 0x83, // LATIN SMALL LETTER A WITH CIRCUMFLEX
        '\u{00e4}' => 0x84, // LATIN SMALL LETTER A WITH DIAERESIS
        '\u{00e0}' => 0x85, // LATIN SMALL LETTER A WITH GRAVE
        '\u{00e5}' => 0x86, // LATIN SMALL LETTER A WITH RING ABOVE
        '\u{00e7}' => 0x87, // LATIN SMALL LETTER C WITH CEDILLA
        '\u{00ea}' => 0x88, // LATIN SMALL LETTER E WITH CIRCUMFLEX
        '\u{00eb}' => 0x89, // LATIN SMALL LETTER E WITH DIAERESIS
        '\u{00e8}' => 0x8a, // LATIN SMALL LETTER E WITH GRAVE
        '\u{00ef}' => 0x8b, // LATIN SMALL LETTER I WITH DIAERESIS
        '\u{00ee}' => 0x8c, // LATIN SMALL LETTER I WITH CIRCUMFLEX
        '\u{00ec}' => 0x8d, // LATIN SMALL LETTER I WITH GRAVE
        '\u{00c4}' => 0x8e, // LATIN CAPITAL LETTER A WITH DIAERESIS
        '\u{00c5}' => 0x8f, // LATIN CAPITAL LETTER A WITH RING ABOVE
        '\u{00c9}' => 0x90, // LATIN CAPITAL LETTER E WITH ACUTE
        '\u{00e6}' => 0x91, // LATIN SMALL LETTER AE
        '\u{00c6}' => 0x92, // LATIN CAPITAL LETTER AE
        '\u{00f4}' => 0x93, // LATIN SMALL LETTER O WITH CIRCUMFLEX
        '\u{00f6}' => 0x94, // LATIN SMALL LETTER O WITH DIAERESIS
        '\u{00f2}' => 0x95, // LATIN SMALL LETTER O WITH GRAVE
        '\u{00fb}' => 0x96, // LATIN SMALL LETTER U WITH CIRCUMFLEX
        '\u{00f9}' => 0x97, // LATIN SMALL LETTER U WITH GRAVE
        '\u{00ff}' => 0x98, // LATIN SMALL LETTER Y WITH DIAERESIS
        '\u{00d6}' => 0x99, // LATIN CAPITAL LETTER O WITH DIAERESIS
        '\u{00dc}' => 0x9a, // LATIN CAPITAL LETTER U WITH DIAERESIS
        '\u{00a2}' => 0x9b, // CENT SIGN
        '\u{00a3}' => 0x9c, // POUND SIGN
        '\u{00a5}' => 0x9d, // YEN SIGN
        '\u{20a7}' => 0x9e, // PESETA SIGN
        '\u{0192}' => 0x9f, // LATIN SMALL LETTER F WITH HOOK
        '\u{00e1}' => 0xa0, // LATIN SMALL LETTER A WITH ACUTE
        '\u{00ed}' => 0xa1, // LATIN SMALL LETTER I WITH ACUTE
        '\u{00f3}' => 0xa2, // LATIN SMALL LETTER O WITH ACUTE
        '\u{00fa}' => 0xa3, // LATIN SMALL LETTER U WITH ACUTE
        '\u{00f1}' => 0xa4, // LATIN SMALL LETTER N WITH TILDE
        '\u{00d1}' => 0xa5, // LATIN CAPITAL LETTER N WITH TILDE
        '\u{00aa}' => 0xa6, // FEMININE ORDINAL INDICATOR
        '\u{00ba}' => 0xa7, // MASCULINE ORDINAL INDICATOR
        '\u{00bf}' => 0xa8, // INVERTED QUESTION MARK
        '\u{2310}' => 0xa9, // REVERSED NOT SIGN
        '\u{00ac}' => 0xaa, // NOT SIGN
        '\u{00bd}' => 0xab, // VULGAR FRACTION ONE HALF
        '\u{00bc}' => 0xac, // VULGAR FRACTION ONE QUARTER
        '\u{00a1}' => 0xad, // INVERTED EXCLAMATION MARK
        '\u{00ab}' => 0xae, // LEFT-POINTING DOUBLE ANGLE QUOTATION MARK
        '\u{00bb}' => 0xaf, // RIGHT-POINTING DOUBLE ANGLE QUOTATION MARK
        '\u{2591}' => 0xb0, // LIGHT SHADE
        '\u{2592}' => 0xb1, // MEDIUM SHADE
        '\u{2593}' => 0xb2, // DARK SHADE
        '\u{2502}' => 0xb3, // BOX DRAWINGS LIGHT VERTICAL
        '\u{2524}' => 0xb4, // BOX DRAWINGS LIGHT VERTICAL AND LEFT
        '\u{2561}' => 0xb5, // BOX DRAWINGS VERTICAL SINGLE AND LEFT DOUBLE
        '\u{2562}' => 0xb6, // BOX DRAWINGS VERTICAL DOUBLE AND LEFT SINGLE
        '\u{2556}' => 0xb7, // BOX DRAWINGS DOWN DOUBLE AND LEFT SINGLE
        '\u{2555}' => 0xb8, // BOX DRAWINGS DOWN SINGLE AND LEFT DOUBLE
        '\u{2563}' => 0xb9, // BOX DRAWINGS DOUBLE VERTICAL AND LEFT
        '\u{2551}' => 0xba, // BOX DRAWINGS DOUBLE VERTICAL
        '\u{2557}' => 0xbb, // BOX DRAWINGS DOUBLE DOWN AND LEFT
        '\u{255d}' => 0xbc, // BOX DRAWINGS DOUBLE UP AND LEFT
        '\u{255c}' => 0xbd, // BOX DRAWINGS UP DOUBLE AND LEFT SINGLE
        '\u{255b}' => 0xbe, // BOX DRAWINGS UP SINGLE AND LEFT DOUBLE
        '\u{2510}' => 0xbf, // BOX DRAWINGS LIGHT DOWN AND LEFT
        '\u{2514}' => 0xc0, // BOX DRAWINGS LIGHT UP AND RIGHT
        '\u{2534}' => 0xc1, // BOX DRAWINGS LIGHT UP AND HORIZONTAL
        '\u{252c}' => 0xc2, // BOX DRAWINGS LIGHT DOWN AND HORIZONTAL
        '\u{251c}' => 0xc3, // BOX DRAWINGS LIGHT VERTICAL AND RIGHT
        '\u{2500}' => 0xc4, // BOX DRAWINGS LIGHT HORIZONTAL
        '\u{253c}' => 0xc5, // BOX DRAWINGS LIGHT VERTICAL AND HORIZONTAL
        '\u{255e}' => 0xc6, // BOX DRAWINGS VERTICAL SINGLE AND RIGHT DOUBLE
        '\u{255f}' => 0xc7, // BOX DRAWINGS VERTICAL DOUBLE AND RIGHT SINGLE
        '\u{255a}' => 0xc8, // BOX DRAWINGS DOUBLE UP AND RIGHT
        '\u{2554}' => 0xc9, // BOX DRAWINGS DOUBLE DOWN AND RIGHT
        '\u{2569}' => 0xca, // BOX DRAWINGS DOUBLE UP AND HORIZONTAL
        '\u{2566}' => 0xcb, // BOX DRAWINGS DOUBLE DOWN AND HORIZONTAL
        '\u{2560}' => 0xcc, // BOX DRAWINGS DOUBLE VERTICAL AND RIGHT
        '\u{2550}' => 0xcd, // BOX DRAWINGS DOUBLE HORIZONTAL
        '\u{256c}' => 0xce, // BOX DRAWINGS DOUBLE VERTICAL AND HORIZONTAL
        '\u{2567}' => 0xcf, // BOX DRAWINGS UP SINGLE AND HORIZONTAL DOUBLE
        '\u{2568}' => 0xd0, // BOX DRAWINGS UP DOUBLE AND HORIZONTAL SINGLE
        '\u{2564}' => 0xd1, // BOX DRAWINGS DOWN SINGLE AND HORIZONTAL DOUBLE
        '\u{2565}' => 0xd2, // BOX DRAWINGS DOWN DOUBLE AND HORIZONTAL SINGLE
        '\u{2559}' => 0xd3, // BOX DRAWINGS UP DOUBLE AND RIGHT SINGLE
        '\u{2558}' => 0xd4, // BOX DRAWINGS UP SINGLE AND RIGHT DOUBLE
        '\u{2552}' => 0xd5, // BOX DRAWINGS DOWN SINGLE AND RIGHT DOUBLE
        '\u{2553}' => 0xd6, // BOX DRAWINGS DOWN DOUBLE AND RIGHT SINGLE
        '\u{256b}' => 0xd7, // BOX DRAWINGS VERTICAL DOUBLE AND HORIZONTAL SINGLE
        '\u{256a}' => 0xd8, // BOX DRAWINGS VERTICAL SINGLE AND HORIZONTAL DOUBLE
        '\u{2518}' => 0xd9, // BOX DRAWINGS LIGHT UP AND LEFT
        '\u{250c}' => 0xda, // BOX DRAWINGS LIGHT DOWN AND RIGHT
        '\u{2588}' => 0xdb, // FULL BLOCK
        '\u{2584}' => 0xdc, // LOWER HALF BLOCK
        '\u{258c}' => 0xdd, // LEFT HALF BLOCK
        '\u{2590}' => 0xde, // RIGHT HALF BLOCK
        '\u{2580}' => 0xdf, // UPPER HALF BLOCK
        '\u{03b1}' => 0xe0, // GREEK SMALL LETTER ALPHA
        '\u{00df}' => 0xe1, // LATIN SMALL LETTER SHARP S
        '\u{0393}' => 0xe2, // GREEK CAPITAL LETTER GAMMA
        '\u{03c0}' => 0xe3, // GREEK SMALL LETTER PI
        '\u{03a3}' => 0xe4, // GREEK CAPITAL LETTER SIGMA
        '\u{03c3}' => 0xe5, // GREEK SMALL LETTER SIGMA
        '\u{00b5}' => 0xe6, // MICRO SIGN
        '\u{03c4}' => 0xe7, // GREEK SMALL LETTER TAU
        '\u{03a6}' => 0xe8, // GREEK CAPITAL LETTER PHI
        '\u{0398}' => 0xe9, // GREEK CAPITAL LETTER THETA
        '\u{03a9}' => 0xea, // GREEK CAPITAL LETTER OMEGA
        '\u{03b4}' => 0xeb, // GREEK SMALL LETTER DELTA
        '\u{221e}' => 0xec, // INFINITY
        '\u{03c6}' => 0xed, // GREEK SMALL LETTER PHI
        '\u{03b5}' => 0xee, // GREEK SMALL LETTER EPSILON
        '\u{2229}' => 0xef, // INTERSECTION
        '\u{2261}' => 0xf0, // IDENTICAL TO
        '\u{00b1}' => 0xf1, // PLUS-MINUS SIGN
        '\u{2265}' => 0xf2, // GREATER-THAN OR EQUAL TO
        '\u{2264}' => 0xf3, // LESS-THAN OR EQUAL TO
        '\u{2320}' => 0xf4, // TOP HALF INTEGRAL
        '\u{2321}' => 0xf5, // BOTTOM HALF INTEGRAL
        '\u{00f7}' => 0xf6, // DIVISION SIGN
        '\u{2248}' => 0xf7, // ALMOST EQUAL TO
        '\u{00b0}' => 0xf8, // DEGREE SIGN
        '\u{2219}' => 0xf9, // BULLET OPERATOR
        '\u{00b7}' => 0xfa, // MIDDLE DOT
        '\u{221a}' => 0xfb, // SQUARE ROOT
        '\u{207f}' => 0xfc, // SUPERSCRIPT LATIN SMALL LETTER N
        '\u{00b2}' => 0xfd, // SUPERSCRIPT TWO
        '\u{25a0}' => 0xfe, // BLACK SQUARE
        '\u{25a1}' => 0xff, // WHITE SQUARE
        _ => 254,
    }
}

} // verus!
