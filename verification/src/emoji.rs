//! The composer's emoji picker: its categories, their tab glyphs and
//! glyph lists, and inserting a glyph at a character offset of a draft.
//!
//! Each glyph is kept as its Unicode code points: variation selectors
//! (U+FE0F) and keycap marks (U+20E3) render invisibly, so each one stays
//! explicit.

use vstd::prelude::*;
use crate::text;

verus! {

/// A tab of the emoji picker.
#[derive(Clone, Copy, Debug, PartialEq, Eq, Hash, Structural)]
pub enum EmojiCategory {
    Smileys,
    People,
    Nature,
    Food,
    Activities,
    Travel,
    Objects,
    Symbols,
}

/// The name a category is shown under.
pub open spec fn category_label(c: EmojiCategory) -> &'static str {
    match c {
        EmojiCategory::Smileys => "Smileys",
        EmojiCategory::People => "People",
        EmojiCategory::Nature => "Nature",
        EmojiCategory::Food => "Food",
        EmojiCategory::Activities => "Activities",
        EmojiCategory::Travel => "Travel",
        EmojiCategory::Objects => "Objects",
        EmojiCategory::Symbols => "Symbols",
    }
}

/// The glyph on a category's tab.
pub open spec fn category_glyph(c: EmojiCategory) -> Seq<char> {
    match c {
        EmojiCategory::Smileys => seq!['\u{1F60A}'],
        EmojiCategory::People => seq!['\u{1F44B}'],
        EmojiCategory::Nature => seq!['\u{1F33F}'],
        EmojiCategory::Food => seq!['\u{1F354}'],
        EmojiCategory::Activities => seq!['\u{26BD}'],
        EmojiCategory::Travel => seq!['\u{2708}', '\u{FE0F}'],
        EmojiCategory::Objects => seq!['\u{1F4A1}'],
        EmojiCategory::Symbols => seq!['\u{2764}', '\u{FE0F}'],
    }
}

/// `char::from_u32`: the character with code point `u`, when `u` is a
/// Unicode scalar value, and nothing otherwise.
#[verifier::external_body]
fn char_from_code_point(u: u32) -> (r: Option<char>)
    ensures
        r is Some <==> vstd::utf8::is_scalar(u),
        r matches Some(c) ==> c as u32 == u,
{
    char::from_u32(u)
}

/// The text of a glyph kept as code points.
pub open spec fn glyph_text(g: Seq<u32>) -> Seq<char> {
    g.map_values(|u: u32| u as char)
}

/// The glyphs a category offers, in picker order.
pub open spec fn catalog(c: EmojiCategory) -> Seq<Seq<char>> {
    glyph_code_points(c).map_values(|g: Seq<u32>| glyph_text(g))
}

/// The code points of each glyph a category offers, in picker order.
pub open spec fn glyph_code_points(c: EmojiCategory) -> Seq<Seq<u32>> {
    match c {
        EmojiCategory::Smileys => smileys_glyphs(),
        EmojiCategory::People => people_glyphs(),
        EmojiCategory::Nature => nature_glyphs(),
        EmojiCategory::Food => food_glyphs(),
        EmojiCategory::Activities => activities_glyphs(),
        EmojiCategory::Travel => travel_glyphs(),
        EmojiCategory::Objects => objects_glyphs(),
        EmojiCategory::Symbols => symbols_glyphs(),
    }
}

/// The Smileys tab.
pub open spec fn smileys_glyphs() -> Seq<Seq<u32>> {
    seq![
        seq![0x1F600], seq![0x1F603], seq![0x1F604], seq![0x1F601], seq![0x1F606], seq![0x1F605],
        seq![0x1F602], seq![0x1F923], seq![0x1F60A], seq![0x1F607], seq![0x1F642], seq![0x1F643],
        seq![0x1F609], seq![0x1F60C], seq![0x1F60D], seq![0x1F970], seq![0x1F618], seq![0x1F617],
        seq![0x1F619], seq![0x1F61A], seq![0x1F60B], seq![0x1F61B], seq![0x1F61D], seq![0x1F61C],
        seq![0x1F92A], seq![0x1F928], seq![0x1F9D0], seq![0x1F913], seq![0x1F60E], seq![0x1F929],
        seq![0x1F973], seq![0x1F60F], seq![0x1F612], seq![0x1F61E], seq![0x1F614], seq![0x1F61F],
        seq![0x1F615], seq![0x1F641], seq![0x2639, 0xFE0F], seq![0x1F623], seq![0x1F616],
        seq![0x1F62B], seq![0x1F629], seq![0x1F97A], seq![0x1F622], seq![0x1F62D], seq![0x1F624],
        seq![0x1F620], seq![0x1F621], seq![0x1F92C], seq![0x1F92F], seq![0x1F633], seq![0x1F975],
        seq![0x1F976], seq![0x1F631], seq![0x1F628], seq![0x1F630], seq![0x1F625], seq![0x1F613],
        seq![0x1F917], seq![0x1F914], seq![0x1F92D], seq![0x1F92B], seq![0x1F925], seq![0x1F636],
        seq![0x1F610], seq![0x1F611], seq![0x1F62C], seq![0x1F644], seq![0x1F62F], seq![0x1F626],
        seq![0x1F627], seq![0x1F62E], seq![0x1F632], seq![0x1F971], seq![0x1F634], seq![0x1F924],
        seq![0x1F62A], seq![0x1F635], seq![0x1F910], seq![0x1F974], seq![0x1F922], seq![0x1F92E],
        seq![0x1F927], seq![0x1F637], seq![0x1F912], seq![0x1F915], seq![0x1F911], seq![0x1F920],
        seq![0x1F608], seq![0x1F47F], seq![0x1F479], seq![0x1F47A], seq![0x1F921], seq![0x1F4A9],
        seq![0x1F47B], seq![0x1F480], seq![0x2620, 0xFE0F], seq![0x1F47D], seq![0x1F47E],
        seq![0x1F916], seq![0x1F383], seq![0x1F63A], seq![0x1F638], seq![0x1F639], seq![0x1F63B],
        seq![0x1F63C], seq![0x1F63D], seq![0x1F640], seq![0x1F63F], seq![0x1F63E],
    ]
}

/// The People tab.
pub open spec fn people_glyphs() -> Seq<Seq<u32>> {
    seq![
        seq![0x1F44B], seq![0x1F91A], seq![0x1F590, 0xFE0F], seq![0x270B], seq![0x1F596],
        seq![0x1F44C], seq![0x1F90C], seq![0x1F90F], seq![0x270C, 0xFE0F], seq![0x1F91E],
        seq![0x1F91F], seq![0x1F918], seq![0x1F919], seq![0x1F448], seq![0x1F449], seq![0x1F446],
        seq![0x1F595], seq![0x1F447], seq![0x261D, 0xFE0F], seq![0x1F44D], seq![0x1F44E],
        seq![0x270A], seq![0x1F44A], seq![0x1F91B], seq![0x1F91C], seq![0x1F44F], seq![0x1F64C],
        seq![0x1F450], seq![0x1F932], seq![0x1F91D], seq![0x1F64F], seq![0x270D, 0xFE0F],
        seq![0x1F485], seq![0x1F933], seq![0x1F4AA], seq![0x1F9BE], seq![0x1F9BF], seq![0x1F9B5],
        seq![0x1F9B6], seq![0x1F442], seq![0x1F443], seq![0x1F440], seq![0x1F441, 0xFE0F],
        seq![0x1F445], seq![0x1F444], seq![0x1F48B], seq![0x1F476], seq![0x1F467], seq![0x1F9D2],
        seq![0x1F466], seq![0x1F469], seq![0x1F9D1], seq![0x1F468], seq![0x1F475], seq![0x1F9D3],
        seq![0x1F474], seq![0x1F64D], seq![0x1F64E], seq![0x1F645], seq![0x1F646], seq![0x1F481],
        seq![0x1F64B], seq![0x1F9CF], seq![0x1F647], seq![0x1F926], seq![0x1F937], seq![0x1F46E],
        seq![0x1F575, 0xFE0F], seq![0x1F482], seq![0x1F977], seq![0x1F477], seq![0x1F934],
        seq![0x1F478], seq![0x1F473], seq![0x1F472], seq![0x1F9D5], seq![0x1F935], seq![0x1F470],
        seq![0x1F930], seq![0x1F931], seq![0x1F47C], seq![0x1F385], seq![0x1F936], seq![0x1F9B8],
        seq![0x1F9B9], seq![0x1F9D9], seq![0x1F9DA], seq![0x1F9DB], seq![0x1F9DC], seq![0x1F9DD],
        seq![0x1F9DE], seq![0x1F9DF], seq![0x1F486], seq![0x1F487], seq![0x1F6B6], seq![0x1F9CD],
        seq![0x1F9CE], seq![0x1F3C3], seq![0x1F483], seq![0x1F57A], seq![0x1F574, 0xFE0F],
        seq![0x1F46F], seq![0x1F9D6],
    ]
}

/// The Nature tab.
pub open spec fn nature_glyphs() -> Seq<Seq<u32>> {
    seq![
        seq![0x1F436], seq![0x1F431], seq![0x1F42D], seq![0x1F439], seq![0x1F430], seq![0x1F98A],
        seq![0x1F43B], seq![0x1F43C], seq![0x1F428], seq![0x1F42F], seq![0x1F981], seq![0x1F42E],
        seq![0x1F437], seq![0x1F43D], seq![0x1F438], seq![0x1F435], seq![0x1F648], seq![0x1F649],
        seq![0x1F64A], seq![0x1F414], seq![0x1F427], seq![0x1F426], seq![0x1F424], seq![0x1F423],
        seq![0x1F425], seq![0x1F986], seq![0x1F985], seq![0x1F989], seq![0x1F987], seq![0x1F43A],
        seq![0x1F417], seq![0x1F434], seq![0x1F984], seq![0x1F41D], seq![0x1FAB1], seq![0x1F41B],
        seq![0x1F98B], seq![0x1F40C], seq![0x1F41E], seq![0x1F41C], seq![0x1FAB0], seq![0x1FAB2],
        seq![0x1FAB3], seq![0x1F99F], seq![0x1F997], seq![0x1F577, 0xFE0F], seq![0x1F578, 0xFE0F],
        seq![0x1F982], seq![0x1F422], seq![0x1F40D], seq![0x1F98E], seq![0x1F996], seq![0x1F995],
        seq![0x1F419], seq![0x1F991], seq![0x1F990], seq![0x1F99E], seq![0x1F980], seq![0x1F421],
        seq![0x1F420], seq![0x1F41F], seq![0x1F42C], seq![0x1F433], seq![0x1F40B], seq![0x1F988],
        seq![0x1F40A], seq![0x1F405], seq![0x1F406], seq![0x1F993], seq![0x1F98D], seq![0x1F9A7],
        seq![0x1F418], seq![0x1F99B], seq![0x1F98F], seq![0x1F42A], seq![0x1F42B], seq![0x1F992],
        seq![0x1F998], seq![0x1F9AC], seq![0x1F403], seq![0x1F402], seq![0x1F404], seq![0x1F40E],
        seq![0x1F416], seq![0x1F40F], seq![0x1F411], seq![0x1F999], seq![0x1F410], seq![0x1F98C],
        seq![0x1F415], seq![0x1F429], seq![0x1F9AE], seq![0x1F408], seq![0x1F413], seq![0x1F983],
        seq![0x1F99A], seq![0x1F99C], seq![0x1F9A2], seq![0x1F9A9], seq![0x1F54A, 0xFE0F],
        seq![0x1F407], seq![0x1F99D], seq![0x1F9A8], seq![0x1F9A1], seq![0x1F9AB], seq![0x1F9A6],
        seq![0x1F9A5], seq![0x1F401], seq![0x1F400], seq![0x1F43F, 0xFE0F], seq![0x1F994],
        seq![0x1F43E], seq![0x1F338], seq![0x1F339], seq![0x1F940], seq![0x1F33A], seq![0x1F33B],
        seq![0x1F33C], seq![0x1F337], seq![0x1F331], seq![0x1FAB4], seq![0x1F332], seq![0x1F333],
        seq![0x1F334], seq![0x1F335], seq![0x1F33E], seq![0x1F33F], seq![0x2618, 0xFE0F],
        seq![0x1F340], seq![0x1F341], seq![0x1F342], seq![0x1F343], seq![0x1F344], seq![0x1F330],
        seq![0x1F30D], seq![0x1F30E], seq![0x1F30F], seq![0x1F311], seq![0x1F313], seq![0x1F315],
        seq![0x1F319], seq![0x2B50], seq![0x1F31F], seq![0x2728], seq![0x26A1], seq![0x1F525],
        seq![0x1F4A5], seq![0x2604, 0xFE0F], seq![0x2600, 0xFE0F], seq![0x1F324, 0xFE0F],
        seq![0x26C5], seq![0x1F327, 0xFE0F], seq![0x26C8, 0xFE0F], seq![0x2744, 0xFE0F],
        seq![0x2603, 0xFE0F], seq![0x26C4], seq![0x1F32C, 0xFE0F], seq![0x1F4A8],
        seq![0x1F32A, 0xFE0F], seq![0x1F308], seq![0x2614], seq![0x1F4A7], seq![0x1F30A],
    ]
}

/// The Food tab.
pub open spec fn food_glyphs() -> Seq<Seq<u32>> {
    seq![
        seq![0x1F34F], seq![0x1F34E], seq![0x1F350], seq![0x1F34A], seq![0x1F34B], seq![0x1F34C],
        seq![0x1F349], seq![0x1F347], seq![0x1F353], seq![0x1FAD0], seq![0x1F348], seq![0x1F352],
        seq![0x1F351], seq![0x1F96D], seq![0x1F34D], seq![0x1F965], seq![0x1F95D], seq![0x1F345],
        seq![0x1F346], seq![0x1F951], seq![0x1F966], seq![0x1F96C], seq![0x1F952],
        seq![0x1F336, 0xFE0F], seq![0x1FAD1], seq![0x1F33D], seq![0x1F955], seq![0x1FAD2],
        seq![0x1F9C4], seq![0x1F9C5], seq![0x1F954], seq![0x1F360], seq![0x1FAD8], seq![0x1F95C],
        seq![0x1F35E], seq![0x1F950], seq![0x1F956], seq![0x1FAD3], seq![0x1F968], seq![0x1F96F],
        seq![0x1F95E], seq![0x1F9C7], seq![0x1F9C0], seq![0x1F356], seq![0x1F357], seq![0x1F969],
        seq![0x1F953], seq![0x1F354], seq![0x1F35F], seq![0x1F355], seq![0x1F32D], seq![0x1F96A],
        seq![0x1F32E], seq![0x1F32F], seq![0x1FAD4], seq![0x1F959], seq![0x1F9C6], seq![0x1F95A],
        seq![0x1F373], seq![0x1F958], seq![0x1F372], seq![0x1FAD5], seq![0x1F963], seq![0x1F957],
        seq![0x1F37F], seq![0x1F9C8], seq![0x1F9C2], seq![0x1F96B], seq![0x1F371], seq![0x1F358],
        seq![0x1F359], seq![0x1F35A], seq![0x1F35B], seq![0x1F35C], seq![0x1F35D], seq![0x1F362],
        seq![0x1F363], seq![0x1F364], seq![0x1F365], seq![0x1F96E], seq![0x1F361], seq![0x1F95F],
        seq![0x1F960], seq![0x1F961], seq![0x1F9AA], seq![0x1F366], seq![0x1F367], seq![0x1F368],
        seq![0x1F369], seq![0x1F36A], seq![0x1F382], seq![0x1F370], seq![0x1F9C1], seq![0x1F967],
        seq![0x1F36B], seq![0x1F36C], seq![0x1F36D], seq![0x1F36E], seq![0x1F36F], seq![0x1F37C],
        seq![0x1F95B], seq![0x2615], seq![0x1F375], seq![0x1F9C3], seq![0x1F964], seq![0x1F9CB],
        seq![0x1F376], seq![0x1F37A], seq![0x1F37B], seq![0x1F942], seq![0x1F377], seq![0x1F943],
        seq![0x1F378], seq![0x1F379], seq![0x1F9C9], seq![0x1F37E], seq![0x1F9CA], seq![0x1F944],
        seq![0x1F374], seq![0x1F37D, 0xFE0F], seq![0x1F962], seq![0x1FAD9],
    ]
}

/// The Activities tab.
pub open spec fn activities_glyphs() -> Seq<Seq<u32>> {
    seq![
        seq![0x26BD], seq![0x1F3C0], seq![0x1F3C8], seq![0x26BE], seq![0x1F94E], seq![0x1F3BE],
        seq![0x1F3D0], seq![0x1F3C9], seq![0x1F94F], seq![0x1F3B1], seq![0x1FA80], seq![0x1F3D3],
        seq![0x1F3F8], seq![0x1F3D2], seq![0x1F3D1], seq![0x1F94D], seq![0x1F3CF], seq![0x1F945],
        seq![0x26F3], seq![0x1FA81], seq![0x1F3F9], seq![0x1F3A3], seq![0x1F93F], seq![0x1F94A],
        seq![0x1F94B], seq![0x1F3BD], seq![0x1F6F9], seq![0x1F6FC], seq![0x1F6F7],
        seq![0x26F8, 0xFE0F], seq![0x1F94C], seq![0x1F3BF], seq![0x26F7, 0xFE0F], seq![0x1F3C2],
        seq![0x1FA82], seq![0x1F3CB, 0xFE0F], seq![0x1F93C], seq![0x1F938], seq![0x26F9, 0xFE0F],
        seq![0x1F93A], seq![0x1F93E], seq![0x1F3CC, 0xFE0F], seq![0x1F3C7], seq![0x1F9D8],
        seq![0x1F3C4], seq![0x1F3CA], seq![0x1F93D], seq![0x1F6A3], seq![0x1F9D7], seq![0x1F6B4],
        seq![0x1F6B5], seq![0x1F3C6], seq![0x1F947], seq![0x1F948], seq![0x1F949], seq![0x1F3C5],
        seq![0x1F396, 0xFE0F], seq![0x1F3F5, 0xFE0F], seq![0x1F397, 0xFE0F], seq![0x1F3AB],
        seq![0x1F39F, 0xFE0F], seq![0x1F3AA], seq![0x1F939], seq![0x1F3AD], seq![0x1FA70],
        seq![0x1F3A8], seq![0x1F3AC], seq![0x1F3A4], seq![0x1F3A7], seq![0x1F3BC], seq![0x1F3B9],
        seq![0x1F941], seq![0x1FA98], seq![0x1F3B7], seq![0x1F3BA], seq![0x1F3B8], seq![0x1FA95],
        seq![0x1F3BB], seq![0x1F3B2], seq![0x265F, 0xFE0F], seq![0x1F3AF], seq![0x1F3B3],
        seq![0x1F3AE], seq![0x1F579, 0xFE0F], seq![0x1F3B0], seq![0x1F9E9],
    ]
}

/// The Travel tab.
pub open spec fn travel_glyphs() -> Seq<Seq<u32>> {
    seq![
        seq![0x1F697], seq![0x1F695], seq![0x1F699], seq![0x1F68C], seq![0x1F68E],
        seq![0x1F3CE, 0xFE0F], seq![0x1F693], seq![0x1F691], seq![0x1F692], seq![0x1F690],
        seq![0x1F6FB], seq![0x1F69A], seq![0x1F69B], seq![0x1F69C], seq![0x1F9AF], seq![0x1F9BD],
        seq![0x1F9BC], seq![0x1F6F4], seq![0x1F6B2], seq![0x1F6F5], seq![0x1F3CD, 0xFE0F],
        seq![0x1F6FA], seq![0x1F6A8], seq![0x1F694], seq![0x1F68D], seq![0x1F698], seq![0x1F696],
        seq![0x1F6A1], seq![0x1F6A0], seq![0x1F69F], seq![0x1F683], seq![0x1F68B], seq![0x1F69E],
        seq![0x1F69D], seq![0x1F684], seq![0x1F685], seq![0x1F688], seq![0x1F682], seq![0x1F686],
        seq![0x1F687], seq![0x1F68A], seq![0x1F689], seq![0x2708, 0xFE0F], seq![0x1F6EB],
        seq![0x1F6EC], seq![0x1F6E9, 0xFE0F], seq![0x1F4BA], seq![0x1F6F0, 0xFE0F], seq![0x1F680],
        seq![0x1F6F8], seq![0x1F681], seq![0x1F6F6], seq![0x26F5], seq![0x1F6A4],
        seq![0x1F6E5, 0xFE0F], seq![0x1F6F3, 0xFE0F], seq![0x26F4, 0xFE0F], seq![0x1F6A2],
        seq![0x2693], seq![0x1FA9D], seq![0x26FD], seq![0x1F6A7], seq![0x1F6A6], seq![0x1F6A5],
        seq![0x1F5FA, 0xFE0F], seq![0x1F5FF], seq![0x1F5FD], seq![0x1F5FC], seq![0x1F3F0],
        seq![0x1F3EF], seq![0x1F3DF, 0xFE0F], seq![0x1F3A1], seq![0x1F3A2], seq![0x1F3A0],
        seq![0x26F2], seq![0x26F1, 0xFE0F], seq![0x1F3D6, 0xFE0F], seq![0x1F3DD, 0xFE0F],
        seq![0x1F3DC, 0xFE0F], seq![0x1F30B], seq![0x26F0, 0xFE0F], seq![0x1F3D4, 0xFE0F],
        seq![0x1F5FB], seq![0x1F3D5, 0xFE0F], seq![0x26FA], seq![0x1F6D6], seq![0x1F3E0],
        seq![0x1F3E1], seq![0x1F3D8, 0xFE0F], seq![0x1F3DA, 0xFE0F], seq![0x1F3D7, 0xFE0F],
        seq![0x1F3ED], seq![0x1F3E2], seq![0x1F3EC], seq![0x1F3E3], seq![0x1F3E4], seq![0x1F3E5],
        seq![0x1F3E6], seq![0x1F3E8], seq![0x1F3EA], seq![0x1F3EB], seq![0x1F3E9], seq![0x1F492],
        seq![0x1F3DB, 0xFE0F], seq![0x26EA], seq![0x1F54C], seq![0x1F54D], seq![0x1F6D5],
        seq![0x1F54B], seq![0x26E9, 0xFE0F], seq![0x1F6E4, 0xFE0F], seq![0x1F6E3, 0xFE0F],
        seq![0x1F5FE], seq![0x1F391], seq![0x1F3DE, 0xFE0F], seq![0x1F305], seq![0x1F304],
        seq![0x1F320], seq![0x1F387], seq![0x1F386], seq![0x1F307], seq![0x1F306],
        seq![0x1F3D9, 0xFE0F], seq![0x1F303], seq![0x1F30C], seq![0x1F309], seq![0x1F301],
    ]
}

/// The Objects tab.
pub open spec fn objects_glyphs() -> Seq<Seq<u32>> {
    seq![
        seq![0x231A], seq![0x1F4F1], seq![0x1F4F2], seq![0x1F4BB], seq![0x2328, 0xFE0F],
        seq![0x1F5A5, 0xFE0F], seq![0x1F5A8, 0xFE0F], seq![0x1F5B1, 0xFE0F], seq![0x1F5B2, 0xFE0F],
        seq![0x1F4BD], seq![0x1F4BE], seq![0x1F4BF], seq![0x1F4C0], seq![0x1F4FC], seq![0x1F4F7],
        seq![0x1F4F8], seq![0x1F4F9], seq![0x1F3A5], seq![0x1F4FD, 0xFE0F], seq![0x1F4DE],
        seq![0x260E, 0xFE0F], seq![0x1F4DF], seq![0x1F4E0], seq![0x1F4FA], seq![0x1F4FB],
        seq![0x1F399, 0xFE0F], seq![0x1F39A, 0xFE0F], seq![0x1F39B, 0xFE0F], seq![0x1F9ED],
        seq![0x23F1, 0xFE0F], seq![0x23F2, 0xFE0F], seq![0x23F0], seq![0x1F570, 0xFE0F],
        seq![0x231B], seq![0x23F3], seq![0x1F4E1], seq![0x1F50B], seq![0x1F50C], seq![0x1F4A1],
        seq![0x1F526], seq![0x1F56F, 0xFE0F], seq![0x1FA94], seq![0x1F9EF], seq![0x1F6E2, 0xFE0F],
        seq![0x1F4B8], seq![0x1F4B5], seq![0x1F4B4], seq![0x1F4B6], seq![0x1F4B7], seq![0x1FA99],
        seq![0x1F4B0], seq![0x1F4B3], seq![0x1F48E], seq![0x2696, 0xFE0F], seq![0x1FA9C],
        seq![0x1F9F0], seq![0x1FA9B], seq![0x1F527], seq![0x1F528], seq![0x2692, 0xFE0F],
        seq![0x1F6E0, 0xFE0F], seq![0x26CF, 0xFE0F], seq![0x1FA9A], seq![0x1F529],
        seq![0x2699, 0xFE0F], seq![0x1FAA4], seq![0x1F9F1], seq![0x26D3, 0xFE0F], seq![0x1F9F2],
        seq![0x1F52B], seq![0x1F4A3], seq![0x1F9E8], seq![0x1FA93], seq![0x1F52A],
        seq![0x1F5E1, 0xFE0F], seq![0x2694, 0xFE0F], seq![0x1F6E1, 0xFE0F], seq![0x1F6AC],
        seq![0x26B0, 0xFE0F], seq![0x1FAA6], seq![0x26B1, 0xFE0F], seq![0x1F3FA], seq![0x1F52E],
        seq![0x1F4FF], seq![0x1F9FF], seq![0x1F488], seq![0x2697, 0xFE0F], seq![0x1F52D],
        seq![0x1F52C], seq![0x1F573, 0xFE0F], seq![0x1FA79], seq![0x1FA7A], seq![0x1F48A],
        seq![0x1F489], seq![0x1FA78], seq![0x1F9EC], seq![0x1F9A0], seq![0x1F9EB], seq![0x1F9EA],
        seq![0x1F321, 0xFE0F], seq![0x1F9F9], seq![0x1FAA0], seq![0x1F9FA], seq![0x1F9FB],
        seq![0x1F6BD], seq![0x1F6B0], seq![0x1F6BF], seq![0x1F6C1], seq![0x1F6C0], seq![0x1F9F4],
        seq![0x1F9F7], seq![0x1F9FC], seq![0x1FAA5], seq![0x1F9FD], seq![0x1F6D2], seq![0x1F6AA],
        seq![0x1FA9E], seq![0x1FA9F], seq![0x1F6CF, 0xFE0F], seq![0x1F6CB, 0xFE0F], seq![0x1FA91],
        seq![0x1F9F8], seq![0x1F5BC, 0xFE0F], seq![0x1F6CD, 0xFE0F], seq![0x1F381], seq![0x1F388],
        seq![0x1F389], seq![0x1F38A], seq![0x1F380], seq![0x1FA84], seq![0x1FA85], seq![0x1FA86],
        seq![0x2709, 0xFE0F], seq![0x1F4E9], seq![0x1F4E8], seq![0x1F4E7], seq![0x1F48C],
        seq![0x1F4E5], seq![0x1F4E4], seq![0x1F4E6], seq![0x1F3F7, 0xFE0F], seq![0x1FAA7],
        seq![0x1F4EA], seq![0x1F4EB], seq![0x1F4EC], seq![0x1F4ED], seq![0x1F4EE], seq![0x1F4EF],
        seq![0x1F4DC], seq![0x1F4C3], seq![0x1F4C4], seq![0x1F4D1], seq![0x1F9FE], seq![0x1F4CA],
        seq![0x1F4C8], seq![0x1F4C9], seq![0x1F5D2, 0xFE0F], seq![0x1F5D3, 0xFE0F], seq![0x1F4C6],
        seq![0x1F4C5], seq![0x1F5D1, 0xFE0F], seq![0x1F4C7], seq![0x1F5C3, 0xFE0F],
        seq![0x1F5F3, 0xFE0F], seq![0x1F5C4, 0xFE0F], seq![0x1F4CB], seq![0x1F4C1], seq![0x1F4C2],
        seq![0x1F5C2, 0xFE0F], seq![0x1F5DE, 0xFE0F], seq![0x1F4F0], seq![0x1F4D3], seq![0x1F4D4],
        seq![0x1F4D2], seq![0x1F4D5], seq![0x1F4D7], seq![0x1F4D8], seq![0x1F4D9], seq![0x1F4DA],
        seq![0x1F4D6], seq![0x1F516], seq![0x1F517], seq![0x1F4CE], seq![0x1F587, 0xFE0F],
        seq![0x1F4D0], seq![0x1F4CF], seq![0x1F9EE], seq![0x1F4CC], seq![0x1F4CD],
        seq![0x2702, 0xFE0F], seq![0x1F58A, 0xFE0F], seq![0x1F58B, 0xFE0F], seq![0x2712, 0xFE0F],
        seq![0x1F58C, 0xFE0F], seq![0x1F58D, 0xFE0F], seq![0x1F4DD], seq![0x270F, 0xFE0F],
        seq![0x1F50D], seq![0x1F50E], seq![0x1F50F], seq![0x1F510], seq![0x1F512], seq![0x1F513],
    ]
}

/// The Symbols tab.
pub open spec fn symbols_glyphs() -> Seq<Seq<u32>> {
    seq![
        seq![0x2764, 0xFE0F], seq![0x1F9E1], seq![0x1F49B], seq![0x1F49A], seq![0x1F499],
        seq![0x1F49C], seq![0x1F5A4], seq![0x1F90D], seq![0x1F90E], seq![0x1F494],
        seq![0x2763, 0xFE0F], seq![0x1F495], seq![0x1F49E], seq![0x1F493], seq![0x1F497],
        seq![0x1F496], seq![0x1F498], seq![0x1F49D], seq![0x1F49F], seq![0x262E, 0xFE0F],
        seq![0x271D, 0xFE0F], seq![0x262A, 0xFE0F], seq![0x1F549, 0xFE0F], seq![0x2638, 0xFE0F],
        seq![0x2721, 0xFE0F], seq![0x1F52F], seq![0x1F54E], seq![0x262F, 0xFE0F],
        seq![0x2626, 0xFE0F], seq![0x1F6D0], seq![0x26CE], seq![0x2648], seq![0x2649],
        seq![0x264A], seq![0x264B], seq![0x264C], seq![0x264D], seq![0x264E], seq![0x264F],
        seq![0x2650], seq![0x2651], seq![0x2652], seq![0x2653], seq![0x1F194],
        seq![0x269B, 0xFE0F], seq![0x1F251], seq![0x2622, 0xFE0F], seq![0x2623, 0xFE0F],
        seq![0x1F4F4], seq![0x1F4F3], seq![0x1F236], seq![0x1F21A], seq![0x1F238], seq![0x1F23A],
        seq![0x1F237, 0xFE0F], seq![0x2734, 0xFE0F], seq![0x1F19A], seq![0x1F4AE], seq![0x1F250],
        seq![0x3299, 0xFE0F], seq![0x3297, 0xFE0F], seq![0x1F234], seq![0x1F235], seq![0x1F239],
        seq![0x1F232], seq![0x1F170, 0xFE0F], seq![0x1F171, 0xFE0F], seq![0x1F18E], seq![0x1F191],
        seq![0x1F17E, 0xFE0F], seq![0x1F198], seq![0x274C], seq![0x2B55], seq![0x1F6D1],
        seq![0x26D4], seq![0x1F4DB], seq![0x1F6AB], seq![0x1F4AF], seq![0x1F4A2],
        seq![0x2668, 0xFE0F], seq![0x1F6B7], seq![0x1F6AF], seq![0x1F6B3], seq![0x1F6B1],
        seq![0x1F51E], seq![0x1F4F5], seq![0x1F6AD], seq![0x2757], seq![0x2755], seq![0x2753],
        seq![0x2754], seq![0x203C, 0xFE0F], seq![0x2049, 0xFE0F], seq![0x1F505], seq![0x1F506],
        seq![0x26A0, 0xFE0F], seq![0x1F6B8], seq![0x1F531], seq![0x269C, 0xFE0F], seq![0x1F530],
        seq![0x267B, 0xFE0F], seq![0x2705], seq![0x1F22F], seq![0x1F4B9], seq![0x2747, 0xFE0F],
        seq![0x2733, 0xFE0F], seq![0x274E], seq![0x1F310], seq![0x1F4A0], seq![0x24C2, 0xFE0F],
        seq![0x1F300], seq![0x1F4A4], seq![0x1F3E7], seq![0x1F6BE], seq![0x267F],
        seq![0x1F17F, 0xFE0F], seq![0x1F6D7], seq![0x1F233], seq![0x1F202, 0xFE0F], seq![0x1F6C2],
        seq![0x1F6C3], seq![0x1F6C4], seq![0x1F6C5], seq![0x1F6B9], seq![0x1F6BA], seq![0x1F6BC],
        seq![0x1F6BB], seq![0x1F6AE], seq![0x1F3A6], seq![0x1F4F6], seq![0x1F201], seq![0x1F523],
        seq![0x2139, 0xFE0F], seq![0x1F524], seq![0x1F521], seq![0x1F520], seq![0x1F196],
        seq![0x1F197], seq![0x1F199], seq![0x1F192], seq![0x1F195], seq![0x1F193],
        seq![0x30, 0xFE0F, 0x20E3], seq![0x31, 0xFE0F, 0x20E3], seq![0x32, 0xFE0F, 0x20E3],
        seq![0x33, 0xFE0F, 0x20E3], seq![0x34, 0xFE0F, 0x20E3], seq![0x35, 0xFE0F, 0x20E3],
        seq![0x36, 0xFE0F, 0x20E3], seq![0x37, 0xFE0F, 0x20E3], seq![0x38, 0xFE0F, 0x20E3],
        seq![0x39, 0xFE0F, 0x20E3], seq![0x1F51F], seq![0x1F522], seq![0x23, 0xFE0F, 0x20E3],
        seq![0x2A, 0xFE0F, 0x20E3], seq![0x1F534], seq![0x1F7E0], seq![0x1F7E1], seq![0x1F7E2],
        seq![0x1F535], seq![0x1F7E3], seq![0x26AB], seq![0x26AA], seq![0x1F7E4], seq![0x1F53A],
        seq![0x1F53B], seq![0x1F538], seq![0x1F539], seq![0x1F536], seq![0x1F537], seq![0x1F533],
        seq![0x1F532], seq![0x25AA, 0xFE0F], seq![0x25AB, 0xFE0F], seq![0x25FE], seq![0x25FD],
        seq![0x25FC, 0xFE0F], seq![0x25FB, 0xFE0F], seq![0x1F7E5], seq![0x1F7E7], seq![0x1F7E8],
        seq![0x1F7E9], seq![0x1F7E6], seq![0x1F7EA], seq![0x2B1B], seq![0x2B1C], seq![0x1F7EB],
        seq![0x1F508], seq![0x1F507], seq![0x1F509], seq![0x1F50A], seq![0x1F514], seq![0x1F515],
        seq![0x1F4E3], seq![0x1F4E2], seq![0x1F4AC], seq![0x1F4AD], seq![0x1F5EF, 0xFE0F],
        seq![0x2660, 0xFE0F], seq![0x2663, 0xFE0F], seq![0x2665, 0xFE0F], seq![0x2666, 0xFE0F],
        seq![0x1F0CF], seq![0x1F3B4], seq![0x1F004], seq![0x1F3B5], seq![0x1F3B6], seq![0x2795],
        seq![0x2796], seq![0x2797], seq![0x2716, 0xFE0F], seq![0x267E, 0xFE0F], seq![0x1F4B2],
        seq![0x1F4B1], seq![0x2122, 0xFE0F], seq![0xA9, 0xFE0F], seq![0xAE, 0xFE0F],
        seq![0x3030, 0xFE0F], seq![0x27B0], seq![0x27BF], seq![0x2714, 0xFE0F],
        seq![0x2611, 0xFE0F], seq![0x1F518],
    ]
}

/// The code points of each glyph of the Smileys tab.
#[verifier::rlimit(100)]
fn smileys_runs() -> (r: &'static [&'static [u32]])
    ensures
        r@.len() == smileys_glyphs().len(),
        forall|i: int| 0 <= i < r@.len() ==> #[trigger] r@[i]@ == smileys_glyphs()[i],
{
    &[
        &[0x1F600], &[0x1F603], &[0x1F604], &[0x1F601], &[0x1F606], &[0x1F605], &[0x1F602],
        &[0x1F923], &[0x1F60A], &[0x1F607], &[0x1F642], &[0x1F643], &[0x1F609], &[0x1F60C],
        &[0x1F60D], &[0x1F970], &[0x1F618], &[0x1F617], &[0x1F619], &[0x1F61A], &[0x1F60B],
        &[0x1F61B], &[0x1F61D], &[0x1F61C], &[0x1F92A], &[0x1F928], &[0x1F9D0], &[0x1F913],
        &[0x1F60E], &[0x1F929], &[0x1F973], &[0x1F60F], &[0x1F612], &[0x1F61E], &[0x1F614],
        &[0x1F61F], &[0x1F615], &[0x1F641], &[0x2639, 0xFE0F], &[0x1F623], &[0x1F616], &[0x1F62B],
        &[0x1F629], &[0x1F97A], &[0x1F622], &[0x1F62D], &[0x1F624], &[0x1F620], &[0x1F621],
        &[0x1F92C], &[0x1F92F], &[0x1F633], &[0x1F975], &[0x1F976], &[0x1F631], &[0x1F628],
        &[0x1F630], &[0x1F625], &[0x1F613], &[0x1F917], &[0x1F914], &[0x1F92D], &[0x1F92B],
        &[0x1F925], &[0x1F636], &[0x1F610], &[0x1F611], &[0x1F62C], &[0x1F644], &[0x1F62F],
        &[0x1F626], &[0x1F627], &[0x1F62E], &[0x1F632], &[0x1F971], &[0x1F634], &[0x1F924],
        &[0x1F62A], &[0x1F635], &[0x1F910], &[0x1F974], &[0x1F922], &[0x1F92E], &[0x1F927],
        &[0x1F637], &[0x1F912], &[0x1F915], &[0x1F911], &[0x1F920], &[0x1F608], &[0x1F47F],
        &[0x1F479], &[0x1F47A], &[0x1F921], &[0x1F4A9], &[0x1F47B], &[0x1F480], &[0x2620, 0xFE0F],
        &[0x1F47D], &[0x1F47E], &[0x1F916], &[0x1F383], &[0x1F63A], &[0x1F638], &[0x1F639],
        &[0x1F63B], &[0x1F63C], &[0x1F63D], &[0x1F640], &[0x1F63F], &[0x1F63E],
    ]
}

/// The code points of each glyph of the People tab.
#[verifier::rlimit(100)]
fn people_runs() -> (r: &'static [&'static [u32]])
    ensures
        r@.len() == people_glyphs().len(),
        forall|i: int| 0 <= i < r@.len() ==> #[trigger] r@[i]@ == people_glyphs()[i],
{
    &[
        &[0x1F44B], &[0x1F91A], &[0x1F590, 0xFE0F], &[0x270B], &[0x1F596], &[0x1F44C], &[0x1F90C],
        &[0x1F90F], &[0x270C, 0xFE0F], &[0x1F91E], &[0x1F91F], &[0x1F918], &[0x1F919], &[0x1F448],
        &[0x1F449], &[0x1F446], &[0x1F595], &[0x1F447], &[0x261D, 0xFE0F], &[0x1F44D], &[0x1F44E],
        &[0x270A], &[0x1F44A], &[0x1F91B], &[0x1F91C], &[0x1F44F], &[0x1F64C], &[0x1F450],
        &[0x1F932], &[0x1F91D], &[0x1F64F], &[0x270D, 0xFE0F], &[0x1F485], &[0x1F933], &[0x1F4AA],
        &[0x1F9BE], &[0x1F9BF], &[0x1F9B5], &[0x1F9B6], &[0x1F442], &[0x1F443], &[0x1F440],
        &[0x1F441, 0xFE0F], &[0x1F445], &[0x1F444], &[0x1F48B], &[0x1F476], &[0x1F467], &[0x1F9D2],
        &[0x1F466], &[0x1F469], &[0x1F9D1], &[0x1F468], &[0x1F475], &[0x1F9D3], &[0x1F474],
        &[0x1F64D], &[0x1F64E], &[0x1F645], &[0x1F646], &[0x1F481], &[0x1F64B], &[0x1F9CF],
        &[0x1F647], &[0x1F926], &[0x1F937], &[0x1F46E], &[0x1F575, 0xFE0F], &[0x1F482], &[0x1F977],
        &[0x1F477], &[0x1F934], &[0x1F478], &[0x1F473], &[0x1F472], &[0x1F9D5], &[0x1F935],
        &[0x1F470], &[0x1F930], &[0x1F931], &[0x1F47C], &[0x1F385], &[0x1F936], &[0x1F9B8],
        &[0x1F9B9], &[0x1F9D9], &[0x1F9DA], &[0x1F9DB], &[0x1F9DC], &[0x1F9DD], &[0x1F9DE],
        &[0x1F9DF], &[0x1F486], &[0x1F487], &[0x1F6B6], &[0x1F9CD], &[0x1F9CE], &[0x1F3C3],
        &[0x1F483], &[0x1F57A], &[0x1F574, 0xFE0F], &[0x1F46F], &[0x1F9D6],
    ]
}

/// The code points of each glyph of the Nature tab.
#[verifier::rlimit(100)]
fn nature_runs() -> (r: &'static [&'static [u32]])
    ensures
        r@.len() == nature_glyphs().len(),
        forall|i: int| 0 <= i < r@.len() ==> #[trigger] r@[i]@ == nature_glyphs()[i],
{
    &[
        &[0x1F436], &[0x1F431], &[0x1F42D], &[0x1F439], &[0x1F430], &[0x1F98A], &[0x1F43B],
        &[0x1F43C], &[0x1F428], &[0x1F42F], &[0x1F981], &[0x1F42E], &[0x1F437], &[0x1F43D],
        &[0x1F438], &[0x1F435], &[0x1F648], &[0x1F649], &[0x1F64A], &[0x1F414], &[0x1F427],
        &[0x1F426], &[0x1F424], &[0x1F423], &[0x1F425], &[0x1F986], &[0x1F985], &[0x1F989],
        &[0x1F987], &[0x1F43A], &[0x1F417], &[0x1F434], &[0x1F984], &[0x1F41D], &[0x1FAB1],
        &[0x1F41B], &[0x1F98B], &[0x1F40C], &[0x1F41E], &[0x1F41C], &[0x1FAB0], &[0x1FAB2],
        &[0x1FAB3], &[0x1F99F], &[0x1F997], &[0x1F577, 0xFE0F], &[0x1F578, 0xFE0F], &[0x1F982],
        &[0x1F422], &[0x1F40D], &[0x1F98E], &[0x1F996], &[0x1F995], &[0x1F419], &[0x1F991],
        &[0x1F990], &[0x1F99E], &[0x1F980], &[0x1F421], &[0x1F420], &[0x1F41F], &[0x1F42C],
        &[0x1F433], &[0x1F40B], &[0x1F988], &[0x1F40A], &[0x1F405], &[0x1F406], &[0x1F993],
        &[0x1F98D], &[0x1F9A7], &[0x1F418], &[0x1F99B], &[0x1F98F], &[0x1F42A], &[0x1F42B],
        &[0x1F992], &[0x1F998], &[0x1F9AC], &[0x1F403], &[0x1F402], &[0x1F404], &[0x1F40E],
        &[0x1F416], &[0x1F40F], &[0x1F411], &[0x1F999], &[0x1F410], &[0x1F98C], &[0x1F415],
        &[0x1F429], &[0x1F9AE], &[0x1F408], &[0x1F413], &[0x1F983], &[0x1F99A], &[0x1F99C],
        &[0x1F9A2], &[0x1F9A9], &[0x1F54A, 0xFE0F], &[0x1F407], &[0x1F99D], &[0x1F9A8], &[0x1F9A1],
        &[0x1F9AB], &[0x1F9A6], &[0x1F9A5], &[0x1F401], &[0x1F400], &[0x1F43F, 0xFE0F], &[0x1F994],
        &[0x1F43E], &[0x1F338], &[0x1F339], &[0x1F940], &[0x1F33A], &[0x1F33B], &[0x1F33C],
        &[0x1F337], &[0x1F331], &[0x1FAB4], &[0x1F332], &[0x1F333], &[0x1F334], &[0x1F335],
        &[0x1F33E], &[0x1F33F], &[0x2618, 0xFE0F], &[0x1F340], &[0x1F341], &[0x1F342], &[0x1F343],
        &[0x1F344], &[0x1F330], &[0x1F30D], &[0x1F30E], &[0x1F30F], &[0x1F311], &[0x1F313],
        &[0x1F315], &[0x1F319], &[0x2B50], &[0x1F31F], &[0x2728], &[0x26A1], &[0x1F525],
        &[0x1F4A5], &[0x2604, 0xFE0F], &[0x2600, 0xFE0F], &[0x1F324, 0xFE0F], &[0x26C5],
        &[0x1F327, 0xFE0F], &[0x26C8, 0xFE0F], &[0x2744, 0xFE0F], &[0x2603, 0xFE0F], &[0x26C4],
        &[0x1F32C, 0xFE0F], &[0x1F4A8], &[0x1F32A, 0xFE0F], &[0x1F308], &[0x2614], &[0x1F4A7],
        &[0x1F30A],
    ]
}

/// The code points of each glyph of the Food tab.
#[verifier::rlimit(100)]
fn food_runs() -> (r: &'static [&'static [u32]])
    ensures
        r@.len() == food_glyphs().len(),
        forall|i: int| 0 <= i < r@.len() ==> #[trigger] r@[i]@ == food_glyphs()[i],
{
    &[
        &[0x1F34F], &[0x1F34E], &[0x1F350], &[0x1F34A], &[0x1F34B], &[0x1F34C], &[0x1F349],
        &[0x1F347], &[0x1F353], &[0x1FAD0], &[0x1F348], &[0x1F352], &[0x1F351], &[0x1F96D],
        &[0x1F34D], &[0x1F965], &[0x1F95D], &[0x1F345], &[0x1F346], &[0x1F951], &[0x1F966],
        &[0x1F96C], &[0x1F952], &[0x1F336, 0xFE0F], &[0x1FAD1], &[0x1F33D], &[0x1F955], &[0x1FAD2],
        &[0x1F9C4], &[0x1F9C5], &[0x1F954], &[0x1F360], &[0x1FAD8], &[0x1F95C], &[0x1F35E],
        &[0x1F950], &[0x1F956], &[0x1FAD3], &[0x1F968], &[0x1F96F], &[0x1F95E], &[0x1F9C7],
        &[0x1F9C0], &[0x1F356], &[0x1F357], &[0x1F969], &[0x1F953], &[0x1F354], &[0x1F35F],
        &[0x1F355], &[0x1F32D], &[0x1F96A], &[0x1F32E], &[0x1F32F], &[0x1FAD4], &[0x1F959],
        &[0x1F9C6], &[0x1F95A], &[0x1F373], &[0x1F958], &[0x1F372], &[0x1FAD5], &[0x1F963],
        &[0x1F957], &[0x1F37F], &[0x1F9C8], &[0x1F9C2], &[0x1F96B], &[0x1F371], &[0x1F358],
        &[0x1F359], &[0x1F35A], &[0x1F35B], &[0x1F35C], &[0x1F35D], &[0x1F362], &[0x1F363],
        &[0x1F364], &[0x1F365], &[0x1F96E], &[0x1F361], &[0x1F95F], &[0x1F960], &[0x1F961],
        &[0x1F9AA], &[0x1F366], &[0x1F367], &[0x1F368], &[0x1F369], &[0x1F36A], &[0x1F382],
        &[0x1F370], &[0x1F9C1], &[0x1F967], &[0x1F36B], &[0x1F36C], &[0x1F36D], &[0x1F36E],
        &[0x1F36F], &[0x1F37C], &[0x1F95B], &[0x2615], &[0x1F375], &[0x1F9C3], &[0x1F964],
        &[0x1F9CB], &[0x1F376], &[0x1F37A], &[0x1F37B], &[0x1F942], &[0x1F377], &[0x1F943],
        &[0x1F378], &[0x1F379], &[0x1F9C9], &[0x1F37E], &[0x1F9CA], &[0x1F944], &[0x1F374],
        &[0x1F37D, 0xFE0F], &[0x1F962], &[0x1FAD9],
    ]
}

/// The code points of each glyph of the Activities tab.
#[verifier::rlimit(100)]
fn activities_runs() -> (r: &'static [&'static [u32]])
    ensures
        r@.len() == activities_glyphs().len(),
        forall|i: int| 0 <= i < r@.len() ==> #[trigger] r@[i]@ == activities_glyphs()[i],
{
    &[
        &[0x26BD], &[0x1F3C0], &[0x1F3C8], &[0x26BE], &[0x1F94E], &[0x1F3BE], &[0x1F3D0],
        &[0x1F3C9], &[0x1F94F], &[0x1F3B1], &[0x1FA80], &[0x1F3D3], &[0x1F3F8], &[0x1F3D2],
        &[0x1F3D1], &[0x1F94D], &[0x1F3CF], &[0x1F945], &[0x26F3], &[0x1FA81], &[0x1F3F9],
        &[0x1F3A3], &[0x1F93F], &[0x1F94A], &[0x1F94B], &[0x1F3BD], &[0x1F6F9], &[0x1F6FC],
        &[0x1F6F7], &[0x26F8, 0xFE0F], &[0x1F94C], &[0x1F3BF], &[0x26F7, 0xFE0F], &[0x1F3C2],
        &[0x1FA82], &[0x1F3CB, 0xFE0F], &[0x1F93C], &[0x1F938], &[0x26F9, 0xFE0F], &[0x1F93A],
        &[0x1F93E], &[0x1F3CC, 0xFE0F], &[0x1F3C7], &[0x1F9D8], &[0x1F3C4], &[0x1F3CA], &[0x1F93D],
        &[0x1F6A3], &[0x1F9D7], &[0x1F6B4], &[0x1F6B5], &[0x1F3C6], &[0x1F947], &[0x1F948],
        &[0x1F949], &[0x1F3C5], &[0x1F396, 0xFE0F], &[0x1F3F5, 0xFE0F], &[0x1F397, 0xFE0F],
        &[0x1F3AB], &[0x1F39F, 0xFE0F], &[0x1F3AA], &[0x1F939], &[0x1F3AD], &[0x1FA70], &[0x1F3A8],
        &[0x1F3AC], &[0x1F3A4], &[0x1F3A7], &[0x1F3BC], &[0x1F3B9], &[0x1F941], &[0x1FA98],
        &[0x1F3B7], &[0x1F3BA], &[0x1F3B8], &[0x1FA95], &[0x1F3BB], &[0x1F3B2], &[0x265F, 0xFE0F],
        &[0x1F3AF], &[0x1F3B3], &[0x1F3AE], &[0x1F579, 0xFE0F], &[0x1F3B0], &[0x1F9E9],
    ]
}

/// The code points of each glyph of the Travel tab.
#[verifier::rlimit(100)]
fn travel_runs() -> (r: &'static [&'static [u32]])
    ensures
        r@.len() == travel_glyphs().len(),
        forall|i: int| 0 <= i < r@.len() ==> #[trigger] r@[i]@ == travel_glyphs()[i],
{
    &[
        &[0x1F697], &[0x1F695], &[0x1F699], &[0x1F68C], &[0x1F68E], &[0x1F3CE, 0xFE0F], &[0x1F693],
        &[0x1F691], &[0x1F692], &[0x1F690], &[0x1F6FB], &[0x1F69A], &[0x1F69B], &[0x1F69C],
        &[0x1F9AF], &[0x1F9BD], &[0x1F9BC], &[0x1F6F4], &[0x1F6B2], &[0x1F6F5], &[0x1F3CD, 0xFE0F],
        &[0x1F6FA], &[0x1F6A8], &[0x1F694], &[0x1F68D], &[0x1F698], &[0x1F696], &[0x1F6A1],
        &[0x1F6A0], &[0x1F69F], &[0x1F683], &[0x1F68B], &[0x1F69E], &[0x1F69D], &[0x1F684],
        &[0x1F685], &[0x1F688], &[0x1F682], &[0x1F686], &[0x1F687], &[0x1F68A], &[0x1F689],
        &[0x2708, 0xFE0F], &[0x1F6EB], &[0x1F6EC], &[0x1F6E9, 0xFE0F], &[0x1F4BA],
        &[0x1F6F0, 0xFE0F], &[0x1F680], &[0x1F6F8], &[0x1F681], &[0x1F6F6], &[0x26F5], &[0x1F6A4],
        &[0x1F6E5, 0xFE0F], &[0x1F6F3, 0xFE0F], &[0x26F4, 0xFE0F], &[0x1F6A2], &[0x2693],
        &[0x1FA9D], &[0x26FD], &[0x1F6A7], &[0x1F6A6], &[0x1F6A5], &[0x1F5FA, 0xFE0F], &[0x1F5FF],
        &[0x1F5FD], &[0x1F5FC], &[0x1F3F0], &[0x1F3EF], &[0x1F3DF, 0xFE0F], &[0x1F3A1], &[0x1F3A2],
        &[0x1F3A0], &[0x26F2], &[0x26F1, 0xFE0F], &[0x1F3D6, 0xFE0F], &[0x1F3DD, 0xFE0F],
        &[0x1F3DC, 0xFE0F], &[0x1F30B], &[0x26F0, 0xFE0F], &[0x1F3D4, 0xFE0F], &[0x1F5FB],
        &[0x1F3D5, 0xFE0F], &[0x26FA], &[0x1F6D6], &[0x1F3E0], &[0x1F3E1], &[0x1F3D8, 0xFE0F],
        &[0x1F3DA, 0xFE0F], &[0x1F3D7, 0xFE0F], &[0x1F3ED], &[0x1F3E2], &[0x1F3EC], &[0x1F3E3],
        &[0x1F3E4], &[0x1F3E5], &[0x1F3E6], &[0x1F3E8], &[0x1F3EA], &[0x1F3EB], &[0x1F3E9],
        &[0x1F492], &[0x1F3DB, 0xFE0F], &[0x26EA], &[0x1F54C], &[0x1F54D], &[0x1F6D5], &[0x1F54B],
        &[0x26E9, 0xFE0F], &[0x1F6E4, 0xFE0F], &[0x1F6E3, 0xFE0F], &[0x1F5FE], &[0x1F391],
        &[0x1F3DE, 0xFE0F], &[0x1F305], &[0x1F304], &[0x1F320], &[0x1F387], &[0x1F386], &[0x1F307],
        &[0x1F306], &[0x1F3D9, 0xFE0F], &[0x1F303], &[0x1F30C], &[0x1F309], &[0x1F301],
    ]
}

/// The code points of each glyph of the Objects tab.
#[verifier::rlimit(100)]
fn objects_runs() -> (r: &'static [&'static [u32]])
    ensures
        r@.len() == objects_glyphs().len(),
        forall|i: int| 0 <= i < r@.len() ==> #[trigger] r@[i]@ == objects_glyphs()[i],
{
    &[
        &[0x231A], &[0x1F4F1], &[0x1F4F2], &[0x1F4BB], &[0x2328, 0xFE0F], &[0x1F5A5, 0xFE0F],
        &[0x1F5A8, 0xFE0F], &[0x1F5B1, 0xFE0F], &[0x1F5B2, 0xFE0F], &[0x1F4BD], &[0x1F4BE],
        &[0x1F4BF], &[0x1F4C0], &[0x1F4FC], &[0x1F4F7], &[0x1F4F8], &[0x1F4F9], &[0x1F3A5],
        &[0x1F4FD, 0xFE0F], &[0x1F4DE], &[0x260E, 0xFE0F], &[0x1F4DF], &[0x1F4E0], &[0x1F4FA],
        &[0x1F4FB], &[0x1F399, 0xFE0F], &[0x1F39A, 0xFE0F], &[0x1F39B, 0xFE0F], &[0x1F9ED],
        &[0x23F1, 0xFE0F], &[0x23F2, 0xFE0F], &[0x23F0], &[0x1F570, 0xFE0F], &[0x231B], &[0x23F3],
        &[0x1F4E1], &[0x1F50B], &[0x1F50C], &[0x1F4A1], &[0x1F526], &[0x1F56F, 0xFE0F], &[0x1FA94],
        &[0x1F9EF], &[0x1F6E2, 0xFE0F], &[0x1F4B8], &[0x1F4B5], &[0x1F4B4], &[0x1F4B6], &[0x1F4B7],
        &[0x1FA99], &[0x1F4B0], &[0x1F4B3], &[0x1F48E], &[0x2696, 0xFE0F], &[0x1FA9C], &[0x1F9F0],
        &[0x1FA9B], &[0x1F527], &[0x1F528], &[0x2692, 0xFE0F], &[0x1F6E0, 0xFE0F],
        &[0x26CF, 0xFE0F], &[0x1FA9A], &[0x1F529], &[0x2699, 0xFE0F], &[0x1FAA4], &[0x1F9F1],
        &[0x26D3, 0xFE0F], &[0x1F9F2], &[0x1F52B], &[0x1F4A3], &[0x1F9E8], &[0x1FA93], &[0x1F52A],
        &[0x1F5E1, 0xFE0F], &[0x2694, 0xFE0F], &[0x1F6E1, 0xFE0F], &[0x1F6AC], &[0x26B0, 0xFE0F],
        &[0x1FAA6], &[0x26B1, 0xFE0F], &[0x1F3FA], &[0x1F52E], &[0x1F4FF], &[0x1F9FF], &[0x1F488],
        &[0x2697, 0xFE0F], &[0x1F52D], &[0x1F52C], &[0x1F573, 0xFE0F], &[0x1FA79], &[0x1FA7A],
        &[0x1F48A], &[0x1F489], &[0x1FA78], &[0x1F9EC], &[0x1F9A0], &[0x1F9EB], &[0x1F9EA],
        &[0x1F321, 0xFE0F], &[0x1F9F9], &[0x1FAA0], &[0x1F9FA], &[0x1F9FB], &[0x1F6BD], &[0x1F6B0],
        &[0x1F6BF], &[0x1F6C1], &[0x1F6C0], &[0x1F9F4], &[0x1F9F7], &[0x1F9FC], &[0x1FAA5],
        &[0x1F9FD], &[0x1F6D2], &[0x1F6AA], &[0x1FA9E], &[0x1FA9F], &[0x1F6CF, 0xFE0F],
        &[0x1F6CB, 0xFE0F], &[0x1FA91], &[0x1F9F8], &[0x1F5BC, 0xFE0F], &[0x1F6CD, 0xFE0F],
        &[0x1F381], &[0x1F388], &[0x1F389], &[0x1F38A], &[0x1F380], &[0x1FA84], &[0x1FA85],
        &[0x1FA86], &[0x2709, 0xFE0F], &[0x1F4E9], &[0x1F4E8], &[0x1F4E7], &[0x1F48C], &[0x1F4E5],
        &[0x1F4E4], &[0x1F4E6], &[0x1F3F7, 0xFE0F], &[0x1FAA7], &[0x1F4EA], &[0x1F4EB], &[0x1F4EC],
        &[0x1F4ED], &[0x1F4EE], &[0x1F4EF], &[0x1F4DC], &[0x1F4C3], &[0x1F4C4], &[0x1F4D1],
        &[0x1F9FE], &[0x1F4CA], &[0x1F4C8], &[0x1F4C9], &[0x1F5D2, 0xFE0F], &[0x1F5D3, 0xFE0F],
        &[0x1F4C6], &[0x1F4C5], &[0x1F5D1, 0xFE0F], &[0x1F4C7], &[0x1F5C3, 0xFE0F],
        &[0x1F5F3, 0xFE0F], &[0x1F5C4, 0xFE0F], &[0x1F4CB], &[0x1F4C1], &[0x1F4C2],
        &[0x1F5C2, 0xFE0F], &[0x1F5DE, 0xFE0F], &[0x1F4F0], &[0x1F4D3], &[0x1F4D4], &[0x1F4D2],
        &[0x1F4D5], &[0x1F4D7], &[0x1F4D8], &[0x1F4D9], &[0x1F4DA], &[0x1F4D6], &[0x1F516],
        &[0x1F517], &[0x1F4CE], &[0x1F587, 0xFE0F], &[0x1F4D0], &[0x1F4CF], &[0x1F9EE], &[0x1F4CC],
        &[0x1F4CD], &[0x2702, 0xFE0F], &[0x1F58A, 0xFE0F], &[0x1F58B, 0xFE0F], &[0x2712, 0xFE0F],
        &[0x1F58C, 0xFE0F], &[0x1F58D, 0xFE0F], &[0x1F4DD], &[0x270F, 0xFE0F], &[0x1F50D],
        &[0x1F50E], &[0x1F50F], &[0x1F510], &[0x1F512], &[0x1F513],
    ]
}

/// The code points of each glyph of the Symbols tab.
#[verifier::rlimit(100)]
fn symbols_runs() -> (r: &'static [&'static [u32]])
    ensures
        r@.len() == symbols_glyphs().len(),
        forall|i: int| 0 <= i < r@.len() ==> #[trigger] r@[i]@ == symbols_glyphs()[i],
{
    &[
        &[0x2764, 0xFE0F], &[0x1F9E1], &[0x1F49B], &[0x1F49A], &[0x1F499], &[0x1F49C], &[0x1F5A4],
        &[0x1F90D], &[0x1F90E], &[0x1F494], &[0x2763, 0xFE0F], &[0x1F495], &[0x1F49E], &[0x1F493],
        &[0x1F497], &[0x1F496], &[0x1F498], &[0x1F49D], &[0x1F49F], &[0x262E, 0xFE0F],
        &[0x271D, 0xFE0F], &[0x262A, 0xFE0F], &[0x1F549, 0xFE0F], &[0x2638, 0xFE0F],
        &[0x2721, 0xFE0F], &[0x1F52F], &[0x1F54E], &[0x262F, 0xFE0F], &[0x2626, 0xFE0F],
        &[0x1F6D0], &[0x26CE], &[0x2648], &[0x2649], &[0x264A], &[0x264B], &[0x264C], &[0x264D],
        &[0x264E], &[0x264F], &[0x2650], &[0x2651], &[0x2652], &[0x2653], &[0x1F194],
        &[0x269B, 0xFE0F], &[0x1F251], &[0x2622, 0xFE0F], &[0x2623, 0xFE0F], &[0x1F4F4],
        &[0x1F4F3], &[0x1F236], &[0x1F21A], &[0x1F238], &[0x1F23A], &[0x1F237, 0xFE0F],
        &[0x2734, 0xFE0F], &[0x1F19A], &[0x1F4AE], &[0x1F250], &[0x3299, 0xFE0F],
        &[0x3297, 0xFE0F], &[0x1F234], &[0x1F235], &[0x1F239], &[0x1F232], &[0x1F170, 0xFE0F],
        &[0x1F171, 0xFE0F], &[0x1F18E], &[0x1F191], &[0x1F17E, 0xFE0F], &[0x1F198], &[0x274C],
        &[0x2B55], &[0x1F6D1], &[0x26D4], &[0x1F4DB], &[0x1F6AB], &[0x1F4AF], &[0x1F4A2],
        &[0x2668, 0xFE0F], &[0x1F6B7], &[0x1F6AF], &[0x1F6B3], &[0x1F6B1], &[0x1F51E], &[0x1F4F5],
        &[0x1F6AD], &[0x2757], &[0x2755], &[0x2753], &[0x2754], &[0x203C, 0xFE0F],
        &[0x2049, 0xFE0F], &[0x1F505], &[0x1F506], &[0x26A0, 0xFE0F], &[0x1F6B8], &[0x1F531],
        &[0x269C, 0xFE0F], &[0x1F530], &[0x267B, 0xFE0F], &[0x2705], &[0x1F22F], &[0x1F4B9],
        &[0x2747, 0xFE0F], &[0x2733, 0xFE0F], &[0x274E], &[0x1F310], &[0x1F4A0], &[0x24C2, 0xFE0F],
        &[0x1F300], &[0x1F4A4], &[0x1F3E7], &[0x1F6BE], &[0x267F], &[0x1F17F, 0xFE0F], &[0x1F6D7],
        &[0x1F233], &[0x1F202, 0xFE0F], &[0x1F6C2], &[0x1F6C3], &[0x1F6C4], &[0x1F6C5], &[0x1F6B9],
        &[0x1F6BA], &[0x1F6BC], &[0x1F6BB], &[0x1F6AE], &[0x1F3A6], &[0x1F4F6], &[0x1F201],
        &[0x1F523], &[0x2139, 0xFE0F], &[0x1F524], &[0x1F521], &[0x1F520], &[0x1F196], &[0x1F197],
        &[0x1F199], &[0x1F192], &[0x1F195], &[0x1F193], &[0x30, 0xFE0F, 0x20E3],
        &[0x31, 0xFE0F, 0x20E3], &[0x32, 0xFE0F, 0x20E3], &[0x33, 0xFE0F, 0x20E3],
        &[0x34, 0xFE0F, 0x20E3], &[0x35, 0xFE0F, 0x20E3], &[0x36, 0xFE0F, 0x20E3],
        &[0x37, 0xFE0F, 0x20E3], &[0x38, 0xFE0F, 0x20E3], &[0x39, 0xFE0F, 0x20E3], &[0x1F51F],
        &[0x1F522], &[0x23, 0xFE0F, 0x20E3], &[0x2A, 0xFE0F, 0x20E3], &[0x1F534], &[0x1F7E0],
        &[0x1F7E1], &[0x1F7E2], &[0x1F535], &[0x1F7E3], &[0x26AB], &[0x26AA], &[0x1F7E4],
        &[0x1F53A], &[0x1F53B], &[0x1F538], &[0x1F539], &[0x1F536], &[0x1F537], &[0x1F533],
        &[0x1F532], &[0x25AA, 0xFE0F], &[0x25AB, 0xFE0F], &[0x25FE], &[0x25FD], &[0x25FC, 0xFE0F],
        &[0x25FB, 0xFE0F], &[0x1F7E5], &[0x1F7E7], &[0x1F7E8], &[0x1F7E9], &[0x1F7E6], &[0x1F7EA],
        &[0x2B1B], &[0x2B1C], &[0x1F7EB], &[0x1F508], &[0x1F507], &[0x1F509], &[0x1F50A],
        &[0x1F514], &[0x1F515], &[0x1F4E3], &[0x1F4E2], &[0x1F4AC], &[0x1F4AD], &[0x1F5EF, 0xFE0F],
        &[0x2660, 0xFE0F], &[0x2663, 0xFE0F], &[0x2665, 0xFE0F], &[0x2666, 0xFE0F], &[0x1F0CF],
        &[0x1F3B4], &[0x1F004], &[0x1F3B5], &[0x1F3B6], &[0x2795], &[0x2796], &[0x2797],
        &[0x2716, 0xFE0F], &[0x267E, 0xFE0F], &[0x1F4B2], &[0x1F4B1], &[0x2122, 0xFE0F],
        &[0xA9, 0xFE0F], &[0xAE, 0xFE0F], &[0x3030, 0xFE0F], &[0x27B0], &[0x27BF],
        &[0x2714, 0xFE0F], &[0x2611, 0xFE0F], &[0x1F518],
    ]
}

/// The code points of each glyph a category offers, in picker order.
fn glyph_runs(c: EmojiCategory) -> (r: &'static [&'static [u32]])
    ensures
        r@.len() == glyph_code_points(c).len(),
        forall|i: int| 0 <= i < r@.len() ==> #[trigger] r@[i]@ == glyph_code_points(c)[i],
{
    match c {
        EmojiCategory::Smileys => smileys_runs(),
        EmojiCategory::People => people_runs(),
        EmojiCategory::Nature => nature_runs(),
        EmojiCategory::Food => food_runs(),
        EmojiCategory::Activities => activities_runs(),
        EmojiCategory::Travel => travel_runs(),
        EmojiCategory::Objects => objects_runs(),
        EmojiCategory::Symbols => symbols_runs(),
    }
}

impl EmojiCategory {
    /// Every category, in tab order.
    pub const ALL: [EmojiCategory; 8] = [
        EmojiCategory::Smileys,
        EmojiCategory::People,
        EmojiCategory::Nature,
        EmojiCategory::Food,
        EmojiCategory::Activities,
        EmojiCategory::Travel,
        EmojiCategory::Objects,
        EmojiCategory::Symbols,
    ];

    /// The name the category is shown under.
    pub fn label(self) -> (r: &'static str)
        ensures
            r == category_label(self),
    {
        match self {
            EmojiCategory::Smileys => "Smileys",
            EmojiCategory::People => "People",
            EmojiCategory::Nature => "Nature",
            EmojiCategory::Food => "Food",
            EmojiCategory::Activities => "Activities",
            EmojiCategory::Travel => "Travel",
            EmojiCategory::Objects => "Objects",
            EmojiCategory::Symbols => "Symbols",
        }
    }

    /// The glyph on the category's tab.
    pub fn tab_glyph(self) -> (r: String)
        ensures
            r@ == category_glyph(self),
    {
        let g: &[char] = match self {
            EmojiCategory::Smileys => &['\u{1F60A}'],
            EmojiCategory::People => &['\u{1F44B}'],
            EmojiCategory::Nature => &['\u{1F33F}'],
            EmojiCategory::Food => &['\u{1F354}'],
            EmojiCategory::Activities => &['\u{26BD}'],
            EmojiCategory::Travel => &['\u{2708}', '\u{FE0F}'],
            EmojiCategory::Objects => &['\u{1F4A1}'],
            EmojiCategory::Symbols => &['\u{2764}', '\u{FE0F}'],
        };
        text::string_from_chars(g)
    }

    /// The glyphs the category offers, in picker order.
    pub fn emoji(self) -> (r: Vec<String>)
        ensures
            r@.map_values(|s: String| s@) == catalog(self),
    {
        let runs = glyph_runs(self);
        proof {
            lemma_table(self);
        }
        let ghost table = glyph_code_points(self);
        let mut out: Vec<String> = Vec::new();
        let mut i: usize = 0;
        while i < runs.len()
            invariant
                i <= runs@.len(),
                table == glyph_code_points(self),
                runs@.len() == table.len(),
                forall|j: int| 0 <= j < runs@.len() ==> #[trigger] runs@[j]@ == table[j],
                well_formed_table(table, catalog_offset(self)),
                out@.map_values(|s: String| s@) == catalog(self).take(i as int),
            decreases runs@.len() - i,
        {
            let g = runs[i];
            assert(g@ == table[i as int]);
            assert(glyph_ok(g@));
            let mut chars: Vec<char> = Vec::new();
            let mut k: usize = 0;
            while k < g.len()
                invariant
                    k <= g@.len(),
                    glyph_ok(g@),
                    chars@ == glyph_text(g@.take(k as int)),
                decreases g@.len() - k,
            {
                assert(vstd::utf8::is_scalar(g@[k as int]));
                match char_from_code_point(g[k]) {
                    Some(ch) => {
                        proof {
                            vstd::utf8::char_u32_cast(ch, g@[k as int]);
                        }
                        chars.push(ch);
                    },
                    None => {},
                }
                assert(glyph_text(g@.take(k + 1)) =~= glyph_text(g@.take(k as int)).push(
                    g@[k as int] as char,
                ));
                k = k + 1;
            }
            assert(g@.take(g@.len() as int) == g@);
            let ghost before = out@.map_values(|s: String| s@);
            out.push(text::string_from_chars(chars.as_slice()));
            assert(out@.map_values(|s: String| s@) =~= before.push(glyph_text(g@)));
            assert(catalog(self).take(i + 1) =~= catalog(self).take(i as int).push(
                catalog(self)[i as int],
            ));
            i = i + 1;
        }
        assert(catalog(self).take(runs@.len() as int) =~= catalog(self));
        out
    }
}

/// A glyph of one to three code points, each a Unicode scalar and none of
/// them whitespace.
pub open spec fn glyph_ok(g: Seq<u32>) -> bool {
    &&& 1 <= g.len() <= 3
    &&& forall|k: int|
        0 <= k < g.len() ==> vstd::utf8::is_scalar(#[trigger] g[k]) && !text::is_ws(g[k] as char)
}

/// A number for a glyph of up to three characters, made of its code points.
pub open spec fn glyph_key(t: Seq<char>) -> int {
    if t.len() == 1 {
        t[0] as int
    } else if t.len() == 2 {
        t[0] as int + t[1] as int * 0x20_0000
    } else {
        t[0] as int + t[1] as int * 0x20_0000 + t[2] as int * 0x400_0000_0000
    }
}

/// Where a category's glyphs start among all the picker's glyphs, tab after
/// tab.
pub open spec fn catalog_offset(c: EmojiCategory) -> int {
    match c {
        EmojiCategory::Smileys => 0,
        EmojiCategory::People => 111,
        EmojiCategory::Nature => 214,
        EmojiCategory::Food => 377,
        EmojiCategory::Activities => 499,
        EmojiCategory::Travel => 585,
        EmojiCategory::Objects => 712,
        EmojiCategory::Symbols => 915,
    }
}

/// How many glyphs the picker offers in all.
pub open spec fn catalog_total() -> nat {
    catalog(EmojiCategory::Smileys).len() + catalog(EmojiCategory::People).len() + catalog(
        EmojiCategory::Nature,
    ).len() + catalog(EmojiCategory::Food).len() + catalog(EmojiCategory::Activities).len()
        + catalog(EmojiCategory::Travel).len() + catalog(EmojiCategory::Objects).len() + catalog(
        EmojiCategory::Symbols,
    ).len()
}

/// The place among all the picker's glyphs of the glyph with key `k`.
spec fn glyph_slot(k: int) -> int {
    if k < 0x1F620 {
        if k < 0x1F419 {
            if k < 0x1F354 {
                if k < 0x1F22F {
                    if k < 0x26FA {
                        if k < 0x2651 {
                            if k < 0x2648 {
                                if k < 0x25FD {
                                    if k < 0x23F0 {
                                        if k < 0x231B { 712 } else { 745 }
                                    } else {
                                        if k < 0x23F3 { 743 } else { 746 }
                                    }
                                } else {
                                    if k < 0x2614 {
                                        if k < 0x25FE { 1091 } else { 1090 }
                                    } else {
                                        if k < 0x2615 { 374 } else { 478 }
                                    }
                                }
                            } else {
                                if k < 0x264C {
                                    if k < 0x264A {
                                        if k < 0x2649 { 946 } else { 947 }
                                    } else {
                                        if k < 0x264B { 948 } else { 949 }
                                    }
                                } else {
                                    if k < 0x264E {
                                        if k < 0x264D { 950 } else { 951 }
                                    } else {
                                        if k < 0x264F { 952 } else {
                                            if k < 0x2650 { 953 } else { 954 }
                                        }
                                    }
                                }
                            }
                        } else {
                            if k < 0x26BE {
                                if k < 0x2693 {
                                    if k < 0x2653 {
                                        if k < 0x2652 { 955 } else { 956 }
                                    } else {
                                        if k < 0x267F { 957 } else { 1029 }
                                    }
                                } else {
                                    if k < 0x26AA {
                                        if k < 0x26A1 { 643 } else { 358 }
                                    } else {
                                        if k < 0x26AB { 1078 } else {
                                            if k < 0x26BD { 1077 } else { 499 }
                                        }
                                    }
                                }
                            } else {
                                if k < 0x26D4 {
                                    if k < 0x26C5 {
                                        if k < 0x26C4 { 502 } else { 369 }
                                    } else {
                                        if k < 0x26CE { 364 } else { 945 }
                                    }
                                } else {
                                    if k < 0x26F2 {
                                        if k < 0x26EA { 989 } else { 689 }
                                    } else {
                                        if k < 0x26F3 { 659 } else {
                                            if k < 0x26F5 { 517 } else { 637 }
                                        }
                                    }
                                }
                            }
                        }
                    } else {
                        if k < 0x2B1C {
                            if k < 0x2754 {
                                if k < 0x270B {
                                    if k < 0x2705 {
                                        if k < 0x26FD { 669 } else { 645 }
                                    } else {
                                        if k < 0x270A { 1016 } else { 132 }
                                    }
                                } else {
                                    if k < 0x274C {
                                        if k < 0x2728 { 114 } else { 357 }
                                    } else {
                                        if k < 0x274E { 986 } else {
                                            if k < 0x2753 { 1021 } else { 1004 }
                                        }
                                    }
                                }
                            } else {
                                if k < 0x2796 {
                                    if k < 0x2757 {
                                        if k < 0x2755 { 1005 } else { 1003 }
                                    } else {
                                        if k < 0x2795 { 1002 } else { 1123 }
                                    }
                                } else {
                                    if k < 0x27B0 {
                                        if k < 0x2797 { 1124 } else { 1125 }
                                    } else {
                                        if k < 0x27BF { 1134 } else {
                                            if k < 0x2B1B { 1135 } else { 1100 }
                                        }
                                    }
                                }
                            }
                        } else {
                            if k < 0x1F194 {
                                if k < 0x1F0CF {
                                    if k < 0x2B55 {
                                        if k < 0x2B50 { 1101 } else { 355 }
                                    } else {
                                        if k < 0x1F004 { 987 } else { 1120 }
                                    }
                                } else {
                                    if k < 0x1F191 {
                                        if k < 0x1F18E { 1118 } else { 982 }
                                    } else {
                                        if k < 0x1F192 { 983 } else {
                                            if k < 0x1F193 { 1054 } else { 1056 }
                                        }
                                    }
                                }
                            } else {
                                if k < 0x1F198 {
                                    if k < 0x1F196 {
                                        if k < 0x1F195 { 958 } else { 1055 }
                                    } else {
                                        if k < 0x1F197 { 1051 } else { 1052 }
                                    }
                                } else {
                                    if k < 0x1F19A {
                                        if k < 0x1F199 { 985 } else { 1053 }
                                    } else {
                                        if k < 0x1F201 { 971 } else {
                                            if k < 0x1F21A { 1045 } else { 966 }
                                        }
                                    }
                                }
                            }
                        }
                    }
                } else {
                    if k < 0x1F32F {
                        if k < 0x1F307 {
                            if k < 0x1F23A {
                                if k < 0x1F235 {
                                    if k < 0x1F233 {
                                        if k < 0x1F232 { 1017 } else { 979 }
                                    } else {
                                        if k < 0x1F234 { 1032 } else { 976 }
                                    }
                                } else {
                                    if k < 0x1F238 {
                                        if k < 0x1F236 { 977 } else { 965 }
                                    } else {
                                        if k < 0x1F239 { 967 } else { 978 }
                                    }
                                }
                            } else {
                                if k < 0x1F301 {
                                    if k < 0x1F251 {
                                        if k < 0x1F250 { 968 } else { 973 }
                                    } else {
                                        if k < 0x1F300 { 960 } else { 1025 }
                                    }
                                } else {
                                    if k < 0x1F304 {
                                        if k < 0x1F303 { 711 } else { 708 }
                                    } else {
                                        if k < 0x1F305 { 701 } else {
                                            if k < 0x1F306 { 700 } else { 706 }
                                        }
                                    }
                                }
                            }
                        } else {
                            if k < 0x1F310 {
                                if k < 0x1F30B {
                                    if k < 0x1F309 {
                                        if k < 0x1F308 { 705 } else { 373 }
                                    } else {
                                        if k < 0x1F30A { 710 } else { 376 }
                                    }
                                } else {
                                    if k < 0x1F30D {
                                        if k < 0x1F30C { 664 } else { 709 }
                                    } else {
                                        if k < 0x1F30E { 348 } else {
                                            if k < 0x1F30F { 349 } else { 350 }
                                        }
                                    }
                                }
                            } else {
                                if k < 0x1F319 {
                                    if k < 0x1F313 {
                                        if k < 0x1F311 { 1022 } else { 351 }
                                    } else {
                                        if k < 0x1F315 { 352 } else { 353 }
                                    }
                                } else {
                                    if k < 0x1F320 {
                                        if k < 0x1F31F { 354 } else { 356 }
                                    } else {
                                        if k < 0x1F32D { 702 } else {
                                            if k < 0x1F32E { 427 } else { 429 }
                                        }
                                    }
                                }
                            }
                        }
                    } else {
                        if k < 0x1F342 {
                            if k < 0x1F339 {
                                if k < 0x1F333 {
                                    if k < 0x1F331 {
                                        if k < 0x1F330 { 430 } else { 347 }
                                    } else {
                                        if k < 0x1F332 { 333 } else { 335 }
                                    }
                                } else {
                                    if k < 0x1F335 {
                                        if k < 0x1F334 { 336 } else { 337 }
                                    } else {
                                        if k < 0x1F337 { 338 } else {
                                            if k < 0x1F338 { 332 } else { 326 }
                                        }
                                    }
                                }
                            } else {
                                if k < 0x1F33D {
                                    if k < 0x1F33B {
                                        if k < 0x1F33A { 327 } else { 329 }
                                    } else {
                                        if k < 0x1F33C { 330 } else { 331 }
                                    }
                                } else {
                                    if k < 0x1F33F {
                                        if k < 0x1F33E { 402 } else { 339 }
                                    } else {
                                        if k < 0x1F340 { 340 } else {
                                            if k < 0x1F341 { 342 } else { 343 }
                                        }
                                    }
                                }
                            }
                        } else {
                            if k < 0x1F34B {
                                if k < 0x1F346 {
                                    if k < 0x1F344 {
                                        if k < 0x1F343 { 344 } else { 345 }
                                    } else {
                                        if k < 0x1F345 { 346 } else { 394 }
                                    }
                                } else {
                                    if k < 0x1F348 {
                                        if k < 0x1F347 { 395 } else { 384 }
                                    } else {
                                        if k < 0x1F349 { 387 } else {
                                            if k < 0x1F34A { 383 } else { 380 }
                                        }
                                    }
                                }
                            } else {
                                if k < 0x1F34F {
                                    if k < 0x1F34D {
                                        if k < 0x1F34C { 381 } else { 382 }
                                    } else {
                                        if k < 0x1F34E { 391 } else { 378 }
                                    }
                                } else {
                                    if k < 0x1F351 {
                                        if k < 0x1F350 { 377 } else { 379 }
                                    } else {
                                        if k < 0x1F352 { 389 } else {
                                            if k < 0x1F353 { 388 } else { 385 }
                                        }
                                    }
                                }
                            }
                        }
                    }
                }
            } else {
                if k < 0x1F3B2 {
                    if k < 0x1F377 {
                        if k < 0x1F365 {
                            if k < 0x1F35C {
                                if k < 0x1F358 {
                                    if k < 0x1F356 {
                                        if k < 0x1F355 { 424 } else { 426 }
                                    } else {
                                        if k < 0x1F357 { 420 } else { 421 }
                                    }
                                } else {
                                    if k < 0x1F35A {
                                        if k < 0x1F359 { 446 } else { 447 }
                                    } else {
                                        if k < 0x1F35B { 448 } else { 449 }
                                    }
                                }
                            } else {
                                if k < 0x1F360 {
                                    if k < 0x1F35E {
                                        if k < 0x1F35D { 450 } else { 451 }
                                    } else {
                                        if k < 0x1F35F { 411 } else { 425 }
                                    }
                                } else {
                                    if k < 0x1F362 {
                                        if k < 0x1F361 { 408 } else { 457 }
                                    } else {
                                        if k < 0x1F363 { 452 } else {
                                            if k < 0x1F364 { 453 } else { 454 }
                                        }
                                    }
                                }
                            }
                        } else {
                            if k < 0x1F36E {
                                if k < 0x1F369 {
                                    if k < 0x1F367 {
                                        if k < 0x1F366 { 455 } else { 462 }
                                    } else {
                                        if k < 0x1F368 { 463 } else { 464 }
                                    }
                                } else {
                                    if k < 0x1F36B {
                                        if k < 0x1F36A { 465 } else { 466 }
                                    } else {
                                        if k < 0x1F36C { 471 } else {
                                            if k < 0x1F36D { 472 } else { 473 }
                                        }
                                    }
                                }
                            } else {
                                if k < 0x1F372 {
                                    if k < 0x1F370 {
                                        if k < 0x1F36F { 474 } else { 475 }
                                    } else {
                                        if k < 0x1F371 { 468 } else { 445 }
                                    }
                                } else {
                                    if k < 0x1F374 {
                                        if k < 0x1F373 { 437 } else { 435 }
                                    } else {
                                        if k < 0x1F375 { 495 } else {
                                            if k < 0x1F376 { 479 } else { 483 }
                                        }
                                    }
                                }
                            }
                        }
                    } else {
                        if k < 0x1F391 {
                            if k < 0x1F381 {
                                if k < 0x1F37B {
                                    if k < 0x1F379 {
                                        if k < 0x1F378 { 487 } else { 489 }
                                    } else {
                                        if k < 0x1F37A { 490 } else { 484 }
                                    }
                                } else {
                                    if k < 0x1F37E {
                                        if k < 0x1F37C { 485 } else { 476 }
                                    } else {
                                        if k < 0x1F37F { 492 } else {
                                            if k < 0x1F380 { 441 } else { 840 }
                                        }
                                    }
                                }
                            } else {
                                if k < 0x1F386 {
                                    if k < 0x1F383 {
                                        if k < 0x1F382 { 836 } else { 467 }
                                    } else {
                                        if k < 0x1F385 { 101 } else { 192 }
                                    }
                                } else {
                                    if k < 0x1F388 {
                                        if k < 0x1F387 { 704 } else { 703 }
                                    } else {
                                        if k < 0x1F389 { 837 } else {
                                            if k < 0x1F38A { 838 } else { 839 }
                                        }
                                    }
                                }
                            }
                        } else {
                            if k < 0x1F3A8 {
                                if k < 0x1F3A3 {
                                    if k < 0x1F3A1 {
                                        if k < 0x1F3A0 { 698 } else { 658 }
                                    } else {
                                        if k < 0x1F3A2 { 656 } else { 657 }
                                    }
                                } else {
                                    if k < 0x1F3A5 {
                                        if k < 0x1F3A4 { 520 } else { 566 }
                                    } else {
                                        if k < 0x1F3A6 { 729 } else {
                                            if k < 0x1F3A7 { 1043 } else { 567 }
                                        }
                                    }
                                }
                            } else {
                                if k < 0x1F3AD {
                                    if k < 0x1F3AB {
                                        if k < 0x1F3AA { 564 } else { 560 }
                                    } else {
                                        if k < 0x1F3AC { 558 } else { 565 }
                                    }
                                } else {
                                    if k < 0x1F3AF {
                                        if k < 0x1F3AE { 562 } else { 581 }
                                    } else {
                                        if k < 0x1F3B0 { 579 } else {
                                            if k < 0x1F3B1 { 583 } else { 508 }
                                        }
                                    }
                                }
                            }
                        }
                    }
                } else {
                    if k < 0x1F3E6 {
                        if k < 0x1F3C4 {
                            if k < 0x1F3BA {
                                if k < 0x1F3B6 {
                                    if k < 0x1F3B4 {
                                        if k < 0x1F3B3 { 577 } else { 580 }
                                    } else {
                                        if k < 0x1F3B5 { 1119 } else { 1121 }
                                    }
                                } else {
                                    if k < 0x1F3B8 {
                                        if k < 0x1F3B7 { 1122 } else { 572 }
                                    } else {
                                        if k < 0x1F3B9 { 574 } else { 569 }
                                    }
                                }
                            } else {
                                if k < 0x1F3BE {
                                    if k < 0x1F3BC {
                                        if k < 0x1F3BB { 573 } else { 576 }
                                    } else {
                                        if k < 0x1F3BD { 568 } else { 524 }
                                    }
                                } else {
                                    if k < 0x1F3C0 {
                                        if k < 0x1F3BF { 504 } else { 530 }
                                    } else {
                                        if k < 0x1F3C2 { 500 } else {
                                            if k < 0x1F3C3 { 532 } else { 208 }
                                        }
                                    }
                                }
                            }
                        } else {
                            if k < 0x1F3D1 {
                                if k < 0x1F3C8 {
                                    if k < 0x1F3C6 {
                                        if k < 0x1F3C5 { 543 } else { 554 }
                                    } else {
                                        if k < 0x1F3C7 { 550 } else { 541 }
                                    }
                                } else {
                                    if k < 0x1F3CA {
                                        if k < 0x1F3C9 { 501 } else { 506 }
                                    } else {
                                        if k < 0x1F3CF { 544 } else {
                                            if k < 0x1F3D0 { 515 } else { 505 }
                                        }
                                    }
                                }
                            } else {
                                if k < 0x1F3E1 {
                                    if k < 0x1F3D3 {
                                        if k < 0x1F3D2 { 513 } else { 512 }
                                    } else {
                                        if k < 0x1F3E0 { 510 } else { 671 }
                                    }
                                } else {
                                    if k < 0x1F3E3 {
                                        if k < 0x1F3E2 { 672 } else { 677 }
                                    } else {
                                        if k < 0x1F3E4 { 679 } else {
                                            if k < 0x1F3E5 { 680 } else { 681 }
                                        }
                                    }
                                }
                            }
                        }
                    } else {
                        if k < 0x1F405 {
                            if k < 0x1F3F0 {
                                if k < 0x1F3EA {
                                    if k < 0x1F3E8 {
                                        if k < 0x1F3E7 { 682 } else { 1027 }
                                    } else {
                                        if k < 0x1F3E9 { 683 } else { 686 }
                                    }
                                } else {
                                    if k < 0x1F3EC {
                                        if k < 0x1F3EB { 684 } else { 685 }
                                    } else {
                                        if k < 0x1F3ED { 678 } else {
                                            if k < 0x1F3EF { 676 } else { 654 }
                                        }
                                    }
                                }
                            } else {
                                if k < 0x1F400 {
                                    if k < 0x1F3F9 {
                                        if k < 0x1F3F8 { 653 } else { 511 }
                                    } else {
                                        if k < 0x1F3FA { 519 } else { 793 }
                                    }
                                } else {
                                    if k < 0x1F402 {
                                        if k < 0x1F401 { 322 } else { 321 }
                                    } else {
                                        if k < 0x1F403 { 294 } else {
                                            if k < 0x1F404 { 293 } else { 295 }
                                        }
                                    }
                                }
                            }
                        } else {
                            if k < 0x1F40F {
                                if k < 0x1F40A {
                                    if k < 0x1F407 {
                                        if k < 0x1F406 { 280 } else { 281 }
                                    } else {
                                        if k < 0x1F408 { 314 } else { 306 }
                                    }
                                } else {
                                    if k < 0x1F40C {
                                        if k < 0x1F40B { 279 } else { 277 }
                                    } else {
                                        if k < 0x1F40D { 251 } else {
                                            if k < 0x1F40E { 263 } else { 296 }
                                        }
                                    }
                                }
                            } else {
                                if k < 0x1F414 {
                                    if k < 0x1F411 {
                                        if k < 0x1F410 { 298 } else { 301 }
                                    } else {
                                        if k < 0x1F413 { 299 } else { 307 }
                                    }
                                } else {
                                    if k < 0x1F416 {
                                        if k < 0x1F415 { 233 } else { 303 }
                                    } else {
                                        if k < 0x1F417 { 297 } else {
                                            if k < 0x1F418 { 244 } else { 285 }
                                        }
                                    }
                                }
                            }
                        }
                    }
                }
            }
        } else {
            if k < 0x1F4CD {
                if k < 0x1F47E {
                    if k < 0x1F43E {
                        if k < 0x1F42B {
                            if k < 0x1F422 {
                                if k < 0x1F41E {
                                    if k < 0x1F41C {
                                        if k < 0x1F41B { 267 } else { 249 }
                                    } else {
                                        if k < 0x1F41D { 253 } else { 247 }
                                    }
                                } else {
                                    if k < 0x1F420 {
                                        if k < 0x1F41F { 252 } else { 274 }
                                    } else {
                                        if k < 0x1F421 { 273 } else { 272 }
                                    }
                                }
                            } else {
                                if k < 0x1F426 {
                                    if k < 0x1F424 {
                                        if k < 0x1F423 { 262 } else { 237 }
                                    } else {
                                        if k < 0x1F425 { 236 } else { 238 }
                                    }
                                } else {
                                    if k < 0x1F428 {
                                        if k < 0x1F427 { 235 } else { 234 }
                                    } else {
                                        if k < 0x1F429 { 222 } else {
                                            if k < 0x1F42A { 304 } else { 288 }
                                        }
                                    }
                                }
                            }
                        } else {
                            if k < 0x1F435 {
                                if k < 0x1F42F {
                                    if k < 0x1F42D {
                                        if k < 0x1F42C { 289 } else { 275 }
                                    } else {
                                        if k < 0x1F42E { 216 } else { 225 }
                                    }
                                } else {
                                    if k < 0x1F431 {
                                        if k < 0x1F430 { 223 } else { 218 }
                                    } else {
                                        if k < 0x1F433 { 215 } else {
                                            if k < 0x1F434 { 276 } else { 245 }
                                        }
                                    }
                                }
                            } else {
                                if k < 0x1F439 {
                                    if k < 0x1F437 {
                                        if k < 0x1F436 { 229 } else { 214 }
                                    } else {
                                        if k < 0x1F438 { 226 } else { 228 }
                                    }
                                } else {
                                    if k < 0x1F43B {
                                        if k < 0x1F43A { 217 } else { 243 }
                                    } else {
                                        if k < 0x1F43C { 220 } else {
                                            if k < 0x1F43D { 221 } else { 227 }
                                        }
                                    }
                                }
                            }
                        }
                    } else {
                        if k < 0x1F467 {
                            if k < 0x1F449 {
                                if k < 0x1F444 {
                                    if k < 0x1F442 {
                                        if k < 0x1F440 { 325 } else { 152 }
                                    } else {
                                        if k < 0x1F443 { 150 } else { 151 }
                                    }
                                } else {
                                    if k < 0x1F446 {
                                        if k < 0x1F445 { 155 } else { 154 }
                                    } else {
                                        if k < 0x1F447 { 126 } else {
                                            if k < 0x1F448 { 128 } else { 124 }
                                        }
                                    }
                                }
                            } else {
                                if k < 0x1F44D {
                                    if k < 0x1F44B {
                                        if k < 0x1F44A { 125 } else { 133 }
                                    } else {
                                        if k < 0x1F44C { 111 } else { 116 }
                                    }
                                } else {
                                    if k < 0x1F44F {
                                        if k < 0x1F44E { 130 } else { 131 }
                                    } else {
                                        if k < 0x1F450 { 136 } else {
                                            if k < 0x1F466 { 138 } else { 160 }
                                        }
                                    }
                                }
                            }
                        } else {
                            if k < 0x1F475 {
                                if k < 0x1F46F {
                                    if k < 0x1F469 {
                                        if k < 0x1F468 { 158 } else { 163 }
                                    } else {
                                        if k < 0x1F46E { 161 } else { 177 }
                                    }
                                } else {
                                    if k < 0x1F472 {
                                        if k < 0x1F470 { 212 } else { 188 }
                                    } else {
                                        if k < 0x1F473 { 185 } else {
                                            if k < 0x1F474 { 184 } else { 166 }
                                        }
                                    }
                                }
                            } else {
                                if k < 0x1F479 {
                                    if k < 0x1F477 {
                                        if k < 0x1F476 { 164 } else { 157 }
                                    } else {
                                        if k < 0x1F478 { 181 } else { 183 }
                                    }
                                } else {
                                    if k < 0x1F47B {
                                        if k < 0x1F47A { 91 } else { 92 }
                                    } else {
                                        if k < 0x1F47C { 95 } else {
                                            if k < 0x1F47D { 191 } else { 98 }
                                        }
                                    }
                                }
                            }
                        }
                    }
                } else {
                    if k < 0x1F4A7 {
                        if k < 0x1F494 {
                            if k < 0x1F487 {
                                if k < 0x1F482 {
                                    if k < 0x1F480 {
                                        if k < 0x1F47F { 99 } else { 90 }
                                    } else {
                                        if k < 0x1F481 { 96 } else { 171 }
                                    }
                                } else {
                                    if k < 0x1F485 {
                                        if k < 0x1F483 { 179 } else { 209 }
                                    } else {
                                        if k < 0x1F486 { 143 } else { 203 }
                                    }
                                }
                            } else {
                                if k < 0x1F48B {
                                    if k < 0x1F489 {
                                        if k < 0x1F488 { 204 } else { 797 }
                                    } else {
                                        if k < 0x1F48A { 805 } else { 804 }
                                    }
                                } else {
                                    if k < 0x1F48E {
                                        if k < 0x1F48C { 156 } else { 848 }
                                    } else {
                                        if k < 0x1F492 { 764 } else {
                                            if k < 0x1F493 { 687 } else { 928 }
                                        }
                                    }
                                }
                            }
                        } else {
                            if k < 0x1F49D {
                                if k < 0x1F498 {
                                    if k < 0x1F496 {
                                        if k < 0x1F495 { 924 } else { 926 }
                                    } else {
                                        if k < 0x1F497 { 930 } else { 929 }
                                    }
                                } else {
                                    if k < 0x1F49A {
                                        if k < 0x1F499 { 931 } else { 919 }
                                    } else {
                                        if k < 0x1F49B { 918 } else {
                                            if k < 0x1F49C { 917 } else { 920 }
                                        }
                                    }
                                }
                            } else {
                                if k < 0x1F4A1 {
                                    if k < 0x1F49F {
                                        if k < 0x1F49E { 932 } else { 927 }
                                    } else {
                                        if k < 0x1F4A0 { 933 } else { 1023 }
                                    }
                                } else {
                                    if k < 0x1F4A3 {
                                        if k < 0x1F4A2 { 750 } else { 993 }
                                    } else {
                                        if k < 0x1F4A4 { 782 } else {
                                            if k < 0x1F4A5 { 1026 } else { 360 }
                                        }
                                    }
                                }
                            }
                        }
                    } else {
                        if k < 0x1F4BA {
                            if k < 0x1F4B1 {
                                if k < 0x1F4AC {
                                    if k < 0x1F4A9 {
                                        if k < 0x1F4A8 { 375 } else { 371 }
                                    } else {
                                        if k < 0x1F4AA { 94 } else { 145 }
                                    }
                                } else {
                                    if k < 0x1F4AE {
                                        if k < 0x1F4AD { 1111 } else { 1112 }
                                    } else {
                                        if k < 0x1F4AF { 972 } else {
                                            if k < 0x1F4B0 { 992 } else { 762 }
                                        }
                                    }
                                }
                            } else {
                                if k < 0x1F4B5 {
                                    if k < 0x1F4B3 {
                                        if k < 0x1F4B2 { 1129 } else { 1128 }
                                    } else {
                                        if k < 0x1F4B4 { 763 } else { 758 }
                                    }
                                } else {
                                    if k < 0x1F4B7 {
                                        if k < 0x1F4B6 { 757 } else { 759 }
                                    } else {
                                        if k < 0x1F4B8 { 760 } else {
                                            if k < 0x1F4B9 { 756 } else { 1018 }
                                        }
                                    }
                                }
                            }
                        } else {
                            if k < 0x1F4C4 {
                                if k < 0x1F4BF {
                                    if k < 0x1F4BD {
                                        if k < 0x1F4BB { 631 } else { 715 }
                                    } else {
                                        if k < 0x1F4BE { 721 } else { 722 }
                                    }
                                } else {
                                    if k < 0x1F4C1 {
                                        if k < 0x1F4C0 { 723 } else { 724 }
                                    } else {
                                        if k < 0x1F4C2 { 878 } else {
                                            if k < 0x1F4C3 { 879 } else { 861 }
                                        }
                                    }
                                }
                            } else {
                                if k < 0x1F4C8 {
                                    if k < 0x1F4C6 {
                                        if k < 0x1F4C5 { 862 } else { 871 }
                                    } else {
                                        if k < 0x1F4C7 { 870 } else { 873 }
                                    }
                                } else {
                                    if k < 0x1F4CA {
                                        if k < 0x1F4C9 { 866 } else { 867 }
                                    } else {
                                        if k < 0x1F4CB { 865 } else {
                                            if k < 0x1F4CC { 877 } else { 899 }
                                        }
                                    }
                                }
                            }
                        }
                    }
                }
            } else {
                if k < 0x1F521 {
                    if k < 0x1F4F0 {
                        if k < 0x1F4DE {
                            if k < 0x1F4D5 {
                                if k < 0x1F4D1 {
                                    if k < 0x1F4CF {
                                        if k < 0x1F4CE { 900 } else { 894 }
                                    } else {
                                        if k < 0x1F4D0 { 897 } else { 896 }
                                    }
                                } else {
                                    if k < 0x1F4D3 {
                                        if k < 0x1F4D2 { 863 } else { 885 }
                                    } else {
                                        if k < 0x1F4D4 { 883 } else { 884 }
                                    }
                                }
                            } else {
                                if k < 0x1F4D9 {
                                    if k < 0x1F4D7 {
                                        if k < 0x1F4D6 { 886 } else { 891 }
                                    } else {
                                        if k < 0x1F4D8 { 887 } else { 888 }
                                    }
                                } else {
                                    if k < 0x1F4DB {
                                        if k < 0x1F4DA { 889 } else { 890 }
                                    } else {
                                        if k < 0x1F4DC { 990 } else {
                                            if k < 0x1F4DD { 860 } else { 907 }
                                        }
                                    }
                                }
                            }
                        } else {
                            if k < 0x1F4E7 {
                                if k < 0x1F4E2 {
                                    if k < 0x1F4E0 {
                                        if k < 0x1F4DF { 731 } else { 733 }
                                    } else {
                                        if k < 0x1F4E1 { 734 } else { 747 }
                                    }
                                } else {
                                    if k < 0x1F4E4 {
                                        if k < 0x1F4E3 { 1110 } else { 1109 }
                                    } else {
                                        if k < 0x1F4E5 { 850 } else {
                                            if k < 0x1F4E6 { 849 } else { 851 }
                                        }
                                    }
                                }
                            } else {
                                if k < 0x1F4EB {
                                    if k < 0x1F4E9 {
                                        if k < 0x1F4E8 { 847 } else { 846 }
                                    } else {
                                        if k < 0x1F4EA { 845 } else { 854 }
                                    }
                                } else {
                                    if k < 0x1F4ED {
                                        if k < 0x1F4EC { 855 } else { 856 }
                                    } else {
                                        if k < 0x1F4EE { 857 } else {
                                            if k < 0x1F4EF { 858 } else { 859 }
                                        }
                                    }
                                }
                            }
                        }
                    } else {
                        if k < 0x1F509 {
                            if k < 0x1F4F9 {
                                if k < 0x1F4F4 {
                                    if k < 0x1F4F2 {
                                        if k < 0x1F4F1 { 882 } else { 713 }
                                    } else {
                                        if k < 0x1F4F3 { 714 } else { 964 }
                                    }
                                } else {
                                    if k < 0x1F4F6 {
                                        if k < 0x1F4F5 { 963 } else { 1000 }
                                    } else {
                                        if k < 0x1F4F7 { 1044 } else {
                                            if k < 0x1F4F8 { 726 } else { 727 }
                                        }
                                    }
                                }
                            } else {
                                if k < 0x1F4FF {
                                    if k < 0x1F4FB {
                                        if k < 0x1F4FA { 728 } else { 735 }
                                    } else {
                                        if k < 0x1F4FC { 736 } else { 725 }
                                    }
                                } else {
                                    if k < 0x1F506 {
                                        if k < 0x1F505 { 795 } else { 1008 }
                                    } else {
                                        if k < 0x1F507 { 1009 } else {
                                            if k < 0x1F508 { 1104 } else { 1103 }
                                        }
                                    }
                                }
                            }
                        } else {
                            if k < 0x1F513 {
                                if k < 0x1F50D {
                                    if k < 0x1F50B {
                                        if k < 0x1F50A { 1105 } else { 1106 }
                                    } else {
                                        if k < 0x1F50C { 748 } else { 749 }
                                    }
                                } else {
                                    if k < 0x1F50F {
                                        if k < 0x1F50E { 909 } else { 910 }
                                    } else {
                                        if k < 0x1F510 { 911 } else {
                                            if k < 0x1F512 { 912 } else { 913 }
                                        }
                                    }
                                }
                            } else {
                                if k < 0x1F517 {
                                    if k < 0x1F515 {
                                        if k < 0x1F514 { 914 } else { 1107 }
                                    } else {
                                        if k < 0x1F516 { 1108 } else { 892 }
                                    }
                                } else {
                                    if k < 0x1F51E {
                                        if k < 0x1F518 { 893 } else { 1138 }
                                    } else {
                                        if k < 0x1F51F { 999 } else {
                                            if k < 0x1F520 { 1067 } else { 1050 }
                                        }
                                    }
                                }
                            }
                        }
                    }
                } else {
                    if k < 0x1F5FC {
                        if k < 0x1F533 {
                            if k < 0x1F52A {
                                if k < 0x1F525 {
                                    if k < 0x1F523 {
                                        if k < 0x1F522 { 1049 } else { 1068 }
                                    } else {
                                        if k < 0x1F524 { 1046 } else { 1048 }
                                    }
                                } else {
                                    if k < 0x1F527 {
                                        if k < 0x1F526 { 359 } else { 751 }
                                    } else {
                                        if k < 0x1F528 { 769 } else {
                                            if k < 0x1F529 { 770 } else { 775 }
                                        }
                                    }
                                }
                            } else {
                                if k < 0x1F52E {
                                    if k < 0x1F52C {
                                        if k < 0x1F52B { 785 } else { 781 }
                                    } else {
                                        if k < 0x1F52D { 800 } else { 799 }
                                    }
                                } else {
                                    if k < 0x1F530 {
                                        if k < 0x1F52F { 794 } else { 940 }
                                    } else {
                                        if k < 0x1F531 { 1014 } else {
                                            if k < 0x1F532 { 1012 } else { 1087 }
                                        }
                                    }
                                }
                            }
                        } else {
                            if k < 0x1F54B {
                                if k < 0x1F537 {
                                    if k < 0x1F535 {
                                        if k < 0x1F534 { 1086 } else { 1071 }
                                    } else {
                                        if k < 0x1F536 { 1075 } else { 1084 }
                                    }
                                } else {
                                    if k < 0x1F539 {
                                        if k < 0x1F538 { 1085 } else { 1082 }
                                    } else {
                                        if k < 0x1F53A { 1083 } else {
                                            if k < 0x1F53B { 1080 } else { 1081 }
                                        }
                                    }
                                }
                            } else {
                                if k < 0x1F57A {
                                    if k < 0x1F54D {
                                        if k < 0x1F54C { 693 } else { 690 }
                                    } else {
                                        if k < 0x1F54E { 691 } else { 941 }
                                    }
                                } else {
                                    if k < 0x1F596 {
                                        if k < 0x1F595 { 210 } else { 127 }
                                    } else {
                                        if k < 0x1F5A4 { 115 } else {
                                            if k < 0x1F5FB { 921 } else { 667 }
                                        }
                                    }
                                }
                            }
                        }
                    } else {
                        if k < 0x1F60E {
                            if k < 0x1F605 {
                                if k < 0x1F600 {
                                    if k < 0x1F5FE {
                                        if k < 0x1F5FD { 652 } else { 651 }
                                    } else {
                                        if k < 0x1F5FF { 697 } else { 650 }
                                    }
                                } else {
                                    if k < 0x1F602 {
                                        if k < 0x1F601 { 0 } else { 3 }
                                    } else {
                                        if k < 0x1F603 { 6 } else {
                                            if k < 0x1F604 { 1 } else { 2 }
                                        }
                                    }
                                }
                            } else {
                                if k < 0x1F609 {
                                    if k < 0x1F607 {
                                        if k < 0x1F606 { 5 } else { 4 }
                                    } else {
                                        if k < 0x1F608 { 9 } else { 89 }
                                    }
                                } else {
                                    if k < 0x1F60B {
                                        if k < 0x1F60A { 12 } else { 8 }
                                    } else {
                                        if k < 0x1F60C { 20 } else {
                                            if k < 0x1F60D { 13 } else { 14 }
                                        }
                                    }
                                }
                            }
                        } else {
                            if k < 0x1F617 {
                                if k < 0x1F612 {
                                    if k < 0x1F610 {
                                        if k < 0x1F60F { 28 } else { 31 }
                                    } else {
                                        if k < 0x1F611 { 65 } else { 66 }
                                    }
                                } else {
                                    if k < 0x1F614 {
                                        if k < 0x1F613 { 32 } else { 58 }
                                    } else {
                                        if k < 0x1F615 { 34 } else {
                                            if k < 0x1F616 { 36 } else { 40 }
                                        }
                                    }
                                }
                            } else {
                                if k < 0x1F61B {
                                    if k < 0x1F619 {
                                        if k < 0x1F618 { 17 } else { 16 }
                                    } else {
                                        if k < 0x1F61A { 18 } else { 19 }
                                    }
                                } else {
                                    if k < 0x1F61D {
                                        if k < 0x1F61C { 21 } else { 23 }
                                    } else {
                                        if k < 0x1F61E { 22 } else {
                                            if k < 0x1F61F { 33 } else { 35 }
                                        }
                                    }
                                }
                            }
                        }
                    }
                }
            }
        }
    } else {
        if k < 0x1F9A2 {
            if k < 0x1F7E9 {
                if k < 0x1F698 {
                    if k < 0x1F643 {
                        if k < 0x1F631 {
                            if k < 0x1F628 {
                                if k < 0x1F624 {
                                    if k < 0x1F622 {
                                        if k < 0x1F621 { 47 } else { 48 }
                                    } else {
                                        if k < 0x1F623 { 44 } else { 39 }
                                    }
                                } else {
                                    if k < 0x1F626 {
                                        if k < 0x1F625 { 46 } else { 57 }
                                    } else {
                                        if k < 0x1F627 { 70 } else { 71 }
                                    }
                                }
                            } else {
                                if k < 0x1F62C {
                                    if k < 0x1F62A {
                                        if k < 0x1F629 { 55 } else { 42 }
                                    } else {
                                        if k < 0x1F62B { 77 } else { 41 }
                                    }
                                } else {
                                    if k < 0x1F62E {
                                        if k < 0x1F62D { 67 } else { 45 }
                                    } else {
                                        if k < 0x1F62F { 72 } else {
                                            if k < 0x1F630 { 69 } else { 56 }
                                        }
                                    }
                                }
                            }
                        } else {
                            if k < 0x1F63A {
                                if k < 0x1F635 {
                                    if k < 0x1F633 {
                                        if k < 0x1F632 { 54 } else { 73 }
                                    } else {
                                        if k < 0x1F634 { 51 } else { 75 }
                                    }
                                } else {
                                    if k < 0x1F637 {
                                        if k < 0x1F636 { 78 } else { 64 }
                                    } else {
                                        if k < 0x1F638 { 84 } else {
                                            if k < 0x1F639 { 103 } else { 104 }
                                        }
                                    }
                                }
                            } else {
                                if k < 0x1F63E {
                                    if k < 0x1F63C {
                                        if k < 0x1F63B { 102 } else { 105 }
                                    } else {
                                        if k < 0x1F63D { 106 } else { 107 }
                                    }
                                } else {
                                    if k < 0x1F640 {
                                        if k < 0x1F63F { 110 } else { 109 }
                                    } else {
                                        if k < 0x1F641 { 108 } else {
                                            if k < 0x1F642 { 37 } else { 10 }
                                        }
                                    }
                                }
                            }
                        }
                    } else {
                        if k < 0x1F685 {
                            if k < 0x1F64C {
                                if k < 0x1F647 {
                                    if k < 0x1F645 {
                                        if k < 0x1F644 { 11 } else { 68 }
                                    } else {
                                        if k < 0x1F646 { 169 } else { 170 }
                                    }
                                } else {
                                    if k < 0x1F649 {
                                        if k < 0x1F648 { 174 } else { 230 }
                                    } else {
                                        if k < 0x1F64A { 231 } else {
                                            if k < 0x1F64B { 232 } else { 172 }
                                        }
                                    }
                                }
                            } else {
                                if k < 0x1F680 {
                                    if k < 0x1F64E {
                                        if k < 0x1F64D { 137 } else { 167 }
                                    } else {
                                        if k < 0x1F64F { 168 } else { 141 }
                                    }
                                } else {
                                    if k < 0x1F682 {
                                        if k < 0x1F681 { 633 } else { 635 }
                                    } else {
                                        if k < 0x1F683 { 622 } else {
                                            if k < 0x1F684 { 615 } else { 619 }
                                        }
                                    }
                                }
                            }
                        } else {
                            if k < 0x1F68E {
                                if k < 0x1F689 {
                                    if k < 0x1F687 {
                                        if k < 0x1F686 { 620 } else { 623 }
                                    } else {
                                        if k < 0x1F688 { 624 } else { 621 }
                                    }
                                } else {
                                    if k < 0x1F68B {
                                        if k < 0x1F68A { 626 } else { 625 }
                                    } else {
                                        if k < 0x1F68C { 616 } else {
                                            if k < 0x1F68D { 588 } else { 609 }
                                        }
                                    }
                                }
                            } else {
                                if k < 0x1F693 {
                                    if k < 0x1F691 {
                                        if k < 0x1F690 { 589 } else { 594 }
                                    } else {
                                        if k < 0x1F692 { 592 } else { 593 }
                                    }
                                } else {
                                    if k < 0x1F695 {
                                        if k < 0x1F694 { 591 } else { 608 }
                                    } else {
                                        if k < 0x1F696 { 586 } else {
                                            if k < 0x1F697 { 611 } else { 585 }
                                        }
                                    }
                                }
                            }
                        }
                    }
                } else {
                    if k < 0x1F6BC {
                        if k < 0x1F6AA {
                            if k < 0x1F6A0 {
                                if k < 0x1F69C {
                                    if k < 0x1F69A {
                                        if k < 0x1F699 { 610 } else { 587 }
                                    } else {
                                        if k < 0x1F69B { 596 } else { 597 }
                                    }
                                } else {
                                    if k < 0x1F69E {
                                        if k < 0x1F69D { 598 } else { 618 }
                                    } else {
                                        if k < 0x1F69F { 617 } else { 614 }
                                    }
                                }
                            } else {
                                if k < 0x1F6A4 {
                                    if k < 0x1F6A2 {
                                        if k < 0x1F6A1 { 613 } else { 612 }
                                    } else {
                                        if k < 0x1F6A3 { 642 } else { 546 }
                                    }
                                } else {
                                    if k < 0x1F6A6 {
                                        if k < 0x1F6A5 { 638 } else { 648 }
                                    } else {
                                        if k < 0x1F6A7 { 647 } else {
                                            if k < 0x1F6A8 { 646 } else { 607 }
                                        }
                                    }
                                }
                            }
                        } else {
                            if k < 0x1F6B3 {
                                if k < 0x1F6AE {
                                    if k < 0x1F6AC {
                                        if k < 0x1F6AB { 827 } else { 991 }
                                    } else {
                                        if k < 0x1F6AD { 789 } else { 1001 }
                                    }
                                } else {
                                    if k < 0x1F6B0 {
                                        if k < 0x1F6AF { 1042 } else { 996 }
                                    } else {
                                        if k < 0x1F6B1 { 817 } else {
                                            if k < 0x1F6B2 { 998 } else { 603 }
                                        }
                                    }
                                }
                            } else {
                                if k < 0x1F6B7 {
                                    if k < 0x1F6B5 {
                                        if k < 0x1F6B4 { 997 } else { 548 }
                                    } else {
                                        if k < 0x1F6B6 { 549 } else { 205 }
                                    }
                                } else {
                                    if k < 0x1F6B9 {
                                        if k < 0x1F6B8 { 995 } else { 1011 }
                                    } else {
                                        if k < 0x1F6BA { 1038 } else {
                                            if k < 0x1F6BB { 1039 } else { 1041 }
                                        }
                                    }
                                }
                            }
                        }
                    } else {
                        if k < 0x1F6F4 {
                            if k < 0x1F6C5 {
                                if k < 0x1F6C0 {
                                    if k < 0x1F6BE {
                                        if k < 0x1F6BD { 1040 } else { 816 }
                                    } else {
                                        if k < 0x1F6BF { 1028 } else { 818 }
                                    }
                                } else {
                                    if k < 0x1F6C2 {
                                        if k < 0x1F6C1 { 820 } else { 819 }
                                    } else {
                                        if k < 0x1F6C3 { 1034 } else {
                                            if k < 0x1F6C4 { 1035 } else { 1036 }
                                        }
                                    }
                                }
                            } else {
                                if k < 0x1F6D5 {
                                    if k < 0x1F6D1 {
                                        if k < 0x1F6D0 { 1037 } else { 944 }
                                    } else {
                                        if k < 0x1F6D2 { 988 } else { 826 }
                                    }
                                } else {
                                    if k < 0x1F6D7 {
                                        if k < 0x1F6D6 { 692 } else { 670 }
                                    } else {
                                        if k < 0x1F6EB { 1031 } else {
                                            if k < 0x1F6EC { 628 } else { 629 }
                                        }
                                    }
                                }
                            }
                        } else {
                            if k < 0x1F7E0 {
                                if k < 0x1F6F8 {
                                    if k < 0x1F6F6 {
                                        if k < 0x1F6F5 { 602 } else { 604 }
                                    } else {
                                        if k < 0x1F6F7 { 636 } else { 527 }
                                    }
                                } else {
                                    if k < 0x1F6FA {
                                        if k < 0x1F6F9 { 634 } else { 525 }
                                    } else {
                                        if k < 0x1F6FB { 606 } else {
                                            if k < 0x1F6FC { 595 } else { 526 }
                                        }
                                    }
                                }
                            } else {
                                if k < 0x1F7E4 {
                                    if k < 0x1F7E2 {
                                        if k < 0x1F7E1 { 1072 } else { 1073 }
                                    } else {
                                        if k < 0x1F7E3 { 1074 } else { 1076 }
                                    }
                                } else {
                                    if k < 0x1F7E6 {
                                        if k < 0x1F7E5 { 1079 } else { 1094 }
                                    } else {
                                        if k < 0x1F7E7 { 1098 } else {
                                            if k < 0x1F7E8 { 1095 } else { 1096 }
                                        }
                                    }
                                }
                            }
                        }
                    }
                }
            } else {
                if k < 0x1F952 {
                    if k < 0x1F92C {
                        if k < 0x1F91A {
                            if k < 0x1F911 {
                                if k < 0x1F90D {
                                    if k < 0x1F7EB {
                                        if k < 0x1F7EA { 1097 } else { 1099 }
                                    } else {
                                        if k < 0x1F90C { 1102 } else { 117 }
                                    }
                                } else {
                                    if k < 0x1F90F {
                                        if k < 0x1F90E { 922 } else { 923 }
                                    } else {
                                        if k < 0x1F910 { 118 } else { 79 }
                                    }
                                }
                            } else {
                                if k < 0x1F915 {
                                    if k < 0x1F913 {
                                        if k < 0x1F912 { 87 } else { 85 }
                                    } else {
                                        if k < 0x1F914 { 27 } else { 60 }
                                    }
                                } else {
                                    if k < 0x1F917 {
                                        if k < 0x1F916 { 86 } else { 100 }
                                    } else {
                                        if k < 0x1F918 { 59 } else {
                                            if k < 0x1F919 { 122 } else { 123 }
                                        }
                                    }
                                }
                            }
                        } else {
                            if k < 0x1F923 {
                                if k < 0x1F91E {
                                    if k < 0x1F91C {
                                        if k < 0x1F91B { 112 } else { 134 }
                                    } else {
                                        if k < 0x1F91D { 135 } else { 140 }
                                    }
                                } else {
                                    if k < 0x1F920 {
                                        if k < 0x1F91F { 120 } else { 121 }
                                    } else {
                                        if k < 0x1F921 { 88 } else {
                                            if k < 0x1F922 { 93 } else { 81 }
                                        }
                                    }
                                }
                            } else {
                                if k < 0x1F927 {
                                    if k < 0x1F925 {
                                        if k < 0x1F924 { 7 } else { 76 }
                                    } else {
                                        if k < 0x1F926 { 63 } else { 175 }
                                    }
                                } else {
                                    if k < 0x1F929 {
                                        if k < 0x1F928 { 83 } else { 25 }
                                    } else {
                                        if k < 0x1F92A { 29 } else {
                                            if k < 0x1F92B { 24 } else { 62 }
                                        }
                                    }
                                }
                            }
                        }
                    } else {
                        if k < 0x1F93F {
                            if k < 0x1F935 {
                                if k < 0x1F930 {
                                    if k < 0x1F92E {
                                        if k < 0x1F92D { 49 } else { 61 }
                                    } else {
                                        if k < 0x1F92F { 82 } else { 50 }
                                    }
                                } else {
                                    if k < 0x1F932 {
                                        if k < 0x1F931 { 189 } else { 190 }
                                    } else {
                                        if k < 0x1F933 { 139 } else {
                                            if k < 0x1F934 { 144 } else { 182 }
                                        }
                                    }
                                }
                            } else {
                                if k < 0x1F939 {
                                    if k < 0x1F937 {
                                        if k < 0x1F936 { 187 } else { 193 }
                                    } else {
                                        if k < 0x1F938 { 176 } else { 536 }
                                    }
                                } else {
                                    if k < 0x1F93C {
                                        if k < 0x1F93A { 561 } else { 538 }
                                    } else {
                                        if k < 0x1F93D { 535 } else {
                                            if k < 0x1F93E { 545 } else { 539 }
                                        }
                                    }
                                }
                            }
                        } else {
                            if k < 0x1F949 {
                                if k < 0x1F943 {
                                    if k < 0x1F941 {
                                        if k < 0x1F940 { 521 } else { 328 }
                                    } else {
                                        if k < 0x1F942 { 570 } else { 486 }
                                    }
                                } else {
                                    if k < 0x1F945 {
                                        if k < 0x1F944 { 488 } else { 494 }
                                    } else {
                                        if k < 0x1F947 { 516 } else {
                                            if k < 0x1F948 { 551 } else { 552 }
                                        }
                                    }
                                }
                            } else {
                                if k < 0x1F94D {
                                    if k < 0x1F94B {
                                        if k < 0x1F94A { 553 } else { 522 }
                                    } else {
                                        if k < 0x1F94C { 523 } else { 529 }
                                    }
                                } else {
                                    if k < 0x1F94F {
                                        if k < 0x1F94E { 514 } else { 503 }
                                    } else {
                                        if k < 0x1F950 { 507 } else {
                                            if k < 0x1F951 { 412 } else { 396 }
                                        }
                                    }
                                }
                            }
                        }
                    }
                } else {
                    if k < 0x1F977 {
                        if k < 0x1F964 {
                            if k < 0x1F95B {
                                if k < 0x1F956 {
                                    if k < 0x1F954 {
                                        if k < 0x1F953 { 399 } else { 423 }
                                    } else {
                                        if k < 0x1F955 { 407 } else { 403 }
                                    }
                                } else {
                                    if k < 0x1F958 {
                                        if k < 0x1F957 { 413 } else { 440 }
                                    } else {
                                        if k < 0x1F959 { 436 } else {
                                            if k < 0x1F95A { 432 } else { 434 }
                                        }
                                    }
                                }
                            } else {
                                if k < 0x1F95F {
                                    if k < 0x1F95D {
                                        if k < 0x1F95C { 477 } else { 410 }
                                    } else {
                                        if k < 0x1F95E { 393 } else { 417 }
                                    }
                                } else {
                                    if k < 0x1F961 {
                                        if k < 0x1F960 { 458 } else { 459 }
                                    } else {
                                        if k < 0x1F962 { 460 } else {
                                            if k < 0x1F963 { 497 } else { 439 }
                                        }
                                    }
                                }
                            }
                        } else {
                            if k < 0x1F96D {
                                if k < 0x1F968 {
                                    if k < 0x1F966 {
                                        if k < 0x1F965 { 481 } else { 392 }
                                    } else {
                                        if k < 0x1F967 { 397 } else { 470 }
                                    }
                                } else {
                                    if k < 0x1F96A {
                                        if k < 0x1F969 { 415 } else { 422 }
                                    } else {
                                        if k < 0x1F96B { 428 } else {
                                            if k < 0x1F96C { 444 } else { 398 }
                                        }
                                    }
                                }
                            } else {
                                if k < 0x1F971 {
                                    if k < 0x1F96F {
                                        if k < 0x1F96E { 390 } else { 456 }
                                    } else {
                                        if k < 0x1F970 { 416 } else { 15 }
                                    }
                                } else {
                                    if k < 0x1F974 {
                                        if k < 0x1F973 { 74 } else { 30 }
                                    } else {
                                        if k < 0x1F975 { 80 } else {
                                            if k < 0x1F976 { 52 } else { 53 }
                                        }
                                    }
                                }
                            }
                        }
                    } else {
                        if k < 0x1F990 {
                            if k < 0x1F987 {
                                if k < 0x1F982 {
                                    if k < 0x1F980 {
                                        if k < 0x1F97A { 180 } else { 43 }
                                    } else {
                                        if k < 0x1F981 { 271 } else { 224 }
                                    }
                                } else {
                                    if k < 0x1F984 {
                                        if k < 0x1F983 { 261 } else { 308 }
                                    } else {
                                        if k < 0x1F985 { 246 } else {
                                            if k < 0x1F986 { 240 } else { 239 }
                                        }
                                    }
                                }
                            } else {
                                if k < 0x1F98B {
                                    if k < 0x1F989 {
                                        if k < 0x1F988 { 242 } else { 278 }
                                    } else {
                                        if k < 0x1F98A { 241 } else { 219 }
                                    }
                                } else {
                                    if k < 0x1F98D {
                                        if k < 0x1F98C { 250 } else { 302 }
                                    } else {
                                        if k < 0x1F98E { 283 } else {
                                            if k < 0x1F98F { 264 } else { 287 }
                                        }
                                    }
                                }
                            }
                        } else {
                            if k < 0x1F999 {
                                if k < 0x1F994 {
                                    if k < 0x1F992 {
                                        if k < 0x1F991 { 269 } else { 268 }
                                    } else {
                                        if k < 0x1F993 { 290 } else { 282 }
                                    }
                                } else {
                                    if k < 0x1F996 {
                                        if k < 0x1F995 { 324 } else { 266 }
                                    } else {
                                        if k < 0x1F997 { 265 } else {
                                            if k < 0x1F998 { 258 } else { 291 }
                                        }
                                    }
                                }
                            } else {
                                if k < 0x1F99D {
                                    if k < 0x1F99B {
                                        if k < 0x1F99A { 300 } else { 309 }
                                    } else {
                                        if k < 0x1F99C { 286 } else { 310 }
                                    }
                                } else {
                                    if k < 0x1F99F {
                                        if k < 0x1F99E { 315 } else { 270 }
                                    } else {
                                        if k < 0x1F9A0 { 257 } else {
                                            if k < 0x1F9A1 { 808 } else { 317 }
                                        }
                                    }
                                }
                            }
                        }
                    }
                }
            }
        } else {
            if k < 0x1FC1E02660 {
                if k < 0x1FA70 {
                    if k < 0x1F9D1 {
                        if k < 0x1F9BE {
                            if k < 0x1F9AC {
                                if k < 0x1F9A8 {
                                    if k < 0x1F9A6 {
                                        if k < 0x1F9A5 { 311 } else { 320 }
                                    } else {
                                        if k < 0x1F9A7 { 319 } else { 284 }
                                    }
                                } else {
                                    if k < 0x1F9AA {
                                        if k < 0x1F9A9 { 316 } else { 312 }
                                    } else {
                                        if k < 0x1F9AB { 461 } else { 318 }
                                    }
                                }
                            } else {
                                if k < 0x1F9B6 {
                                    if k < 0x1F9AF {
                                        if k < 0x1F9AE { 292 } else { 305 }
                                    } else {
                                        if k < 0x1F9B5 { 599 } else { 148 }
                                    }
                                } else {
                                    if k < 0x1F9B9 {
                                        if k < 0x1F9B8 { 149 } else { 194 }
                                    } else {
                                        if k < 0x1F9BC { 195 } else {
                                            if k < 0x1F9BD { 601 } else { 600 }
                                        }
                                    }
                                }
                            }
                        } else {
                            if k < 0x1F9C7 {
                                if k < 0x1F9C2 {
                                    if k < 0x1F9C0 {
                                        if k < 0x1F9BF { 146 } else { 147 }
                                    } else {
                                        if k < 0x1F9C1 { 419 } else { 469 }
                                    }
                                } else {
                                    if k < 0x1F9C4 {
                                        if k < 0x1F9C3 { 443 } else { 480 }
                                    } else {
                                        if k < 0x1F9C5 { 405 } else {
                                            if k < 0x1F9C6 { 406 } else { 433 }
                                        }
                                    }
                                }
                            } else {
                                if k < 0x1F9CB {
                                    if k < 0x1F9C9 {
                                        if k < 0x1F9C8 { 418 } else { 442 }
                                    } else {
                                        if k < 0x1F9CA { 491 } else { 493 }
                                    }
                                } else {
                                    if k < 0x1F9CE {
                                        if k < 0x1F9CD { 482 } else { 206 }
                                    } else {
                                        if k < 0x1F9CF { 207 } else {
                                            if k < 0x1F9D0 { 173 } else { 26 }
                                        }
                                    }
                                }
                            }
                        }
                    } else {
                        if k < 0x1F9EB {
                            if k < 0x1F9DB {
                                if k < 0x1F9D6 {
                                    if k < 0x1F9D3 {
                                        if k < 0x1F9D2 { 162 } else { 159 }
                                    } else {
                                        if k < 0x1F9D5 { 165 } else { 186 }
                                    }
                                } else {
                                    if k < 0x1F9D8 {
                                        if k < 0x1F9D7 { 213 } else { 547 }
                                    } else {
                                        if k < 0x1F9D9 { 542 } else {
                                            if k < 0x1F9DA { 196 } else { 197 }
                                        }
                                    }
                                }
                            } else {
                                if k < 0x1F9DF {
                                    if k < 0x1F9DD {
                                        if k < 0x1F9DC { 198 } else { 199 }
                                    } else {
                                        if k < 0x1F9DE { 200 } else { 201 }
                                    }
                                } else {
                                    if k < 0x1F9E8 {
                                        if k < 0x1F9E1 { 202 } else { 916 }
                                    } else {
                                        if k < 0x1F9E9 { 783 } else {
                                            if k < 0x1F9EA { 584 } else { 810 }
                                        }
                                    }
                                }
                            }
                        } else {
                            if k < 0x1F9F7 {
                                if k < 0x1F9EF {
                                    if k < 0x1F9ED {
                                        if k < 0x1F9EC { 809 } else { 807 }
                                    } else {
                                        if k < 0x1F9EE { 740 } else { 898 }
                                    }
                                } else {
                                    if k < 0x1F9F1 {
                                        if k < 0x1F9F0 { 754 } else { 767 }
                                    } else {
                                        if k < 0x1F9F2 { 778 } else {
                                            if k < 0x1F9F4 { 780 } else { 821 }
                                        }
                                    }
                                }
                            } else {
                                if k < 0x1F9FB {
                                    if k < 0x1F9F9 {
                                        if k < 0x1F9F8 { 822 } else { 833 }
                                    } else {
                                        if k < 0x1F9FA { 812 } else { 814 }
                                    }
                                } else {
                                    if k < 0x1F9FD {
                                        if k < 0x1F9FC { 815 } else { 823 }
                                    } else {
                                        if k < 0x1F9FE { 825 } else {
                                            if k < 0x1F9FF { 864 } else { 796 }
                                        }
                                    }
                                }
                            }
                        }
                    }
                } else {
                    if k < 0x1FAD3 {
                        if k < 0x1FA9B {
                            if k < 0x1FA85 {
                                if k < 0x1FA80 {
                                    if k < 0x1FA79 {
                                        if k < 0x1FA78 { 563 } else { 806 }
                                    } else {
                                        if k < 0x1FA7A { 802 } else { 803 }
                                    }
                                } else {
                                    if k < 0x1FA82 {
                                        if k < 0x1FA81 { 509 } else { 518 }
                                    } else {
                                        if k < 0x1FA84 { 533 } else { 841 }
                                    }
                                }
                            } else {
                                if k < 0x1FA94 {
                                    if k < 0x1FA91 {
                                        if k < 0x1FA86 { 842 } else { 843 }
                                    } else {
                                        if k < 0x1FA93 { 832 } else { 784 }
                                    }
                                } else {
                                    if k < 0x1FA98 {
                                        if k < 0x1FA95 { 753 } else { 575 }
                                    } else {
                                        if k < 0x1FA99 { 571 } else {
                                            if k < 0x1FA9A { 761 } else { 774 }
                                        }
                                    }
                                }
                            }
                        } else {
                            if k < 0x1FAA7 {
                                if k < 0x1FA9F {
                                    if k < 0x1FA9D {
                                        if k < 0x1FA9C { 768 } else { 766 }
                                    } else {
                                        if k < 0x1FA9E { 644 } else { 828 }
                                    }
                                } else {
                                    if k < 0x1FAA4 {
                                        if k < 0x1FAA0 { 829 } else { 813 }
                                    } else {
                                        if k < 0x1FAA5 { 777 } else {
                                            if k < 0x1FAA6 { 824 } else { 791 }
                                        }
                                    }
                                }
                            } else {
                                if k < 0x1FAB3 {
                                    if k < 0x1FAB1 {
                                        if k < 0x1FAB0 { 853 } else { 254 }
                                    } else {
                                        if k < 0x1FAB2 { 248 } else { 255 }
                                    }
                                } else {
                                    if k < 0x1FAD0 {
                                        if k < 0x1FAB4 { 256 } else { 334 }
                                    } else {
                                        if k < 0x1FAD1 { 386 } else {
                                            if k < 0x1FAD2 { 401 } else { 404 }
                                        }
                                    }
                                }
                            }
                        }
                    } else {
                        if k < 0x1FC1E025FC {
                            if k < 0x1FC1E02122 {
                                if k < 0x1FAD9 {
                                    if k < 0x1FAD5 {
                                        if k < 0x1FAD4 { 414 } else { 431 }
                                    } else {
                                        if k < 0x1FAD8 { 438 } else { 409 }
                                    }
                                } else {
                                    if k < 0x1FC1E000AE {
                                        if k < 0x1FC1E000A9 { 498 } else { 1131 }
                                    } else {
                                        if k < 0x1FC1E0203C { 1132 } else {
                                            if k < 0x1FC1E02049 { 1006 } else { 1007 }
                                        }
                                    }
                                }
                            } else {
                                if k < 0x1FC1E023F2 {
                                    if k < 0x1FC1E02328 {
                                        if k < 0x1FC1E02139 { 1130 } else { 1047 }
                                    } else {
                                        if k < 0x1FC1E023F1 { 716 } else { 741 }
                                    }
                                } else {
                                    if k < 0x1FC1E025AA {
                                        if k < 0x1FC1E024C2 { 742 } else { 1024 }
                                    } else {
                                        if k < 0x1FC1E025AB { 1088 } else {
                                            if k < 0x1FC1E025FB { 1089 } else { 1093 }
                                        }
                                    }
                                }
                            }
                        } else {
                            if k < 0x1FC1E02622 {
                                if k < 0x1FC1E0260E {
                                    if k < 0x1FC1E02603 {
                                        if k < 0x1FC1E02600 { 1092 } else { 362 }
                                    } else {
                                        if k < 0x1FC1E02604 { 368 } else { 361 }
                                    }
                                } else {
                                    if k < 0x1FC1E02618 {
                                        if k < 0x1FC1E02611 { 732 } else { 1137 }
                                    } else {
                                        if k < 0x1FC1E0261D { 341 } else {
                                            if k < 0x1FC1E02620 { 129 } else { 97 }
                                        }
                                    }
                                }
                            } else {
                                if k < 0x1FC1E0262E {
                                    if k < 0x1FC1E02626 {
                                        if k < 0x1FC1E02623 { 961 } else { 962 }
                                    } else {
                                        if k < 0x1FC1E0262A { 943 } else { 936 }
                                    }
                                } else {
                                    if k < 0x1FC1E02638 {
                                        if k < 0x1FC1E0262F { 934 } else { 942 }
                                    } else {
                                        if k < 0x1FC1E02639 { 938 } else {
                                            if k < 0x1FC1E0265F { 38 } else { 578 }
                                        }
                                    }
                                }
                            }
                        }
                    }
                }
            } else {
                if k < 0x1FC1E1F3D5 {
                    if k < 0x1FC1E02716 {
                        if k < 0x1FC1E026C8 {
                            if k < 0x1FC1E02694 {
                                if k < 0x1FC1E02668 {
                                    if k < 0x1FC1E02665 {
                                        if k < 0x1FC1E02663 { 1114 } else { 1115 }
                                    } else {
                                        if k < 0x1FC1E02666 { 1116 } else { 1117 }
                                    }
                                } else {
                                    if k < 0x1FC1E0267E {
                                        if k < 0x1FC1E0267B { 994 } else { 1015 }
                                    } else {
                                        if k < 0x1FC1E02692 { 1127 } else { 771 }
                                    }
                                }
                            } else {
                                if k < 0x1FC1E0269B {
                                    if k < 0x1FC1E02697 {
                                        if k < 0x1FC1E02696 { 787 } else { 765 }
                                    } else {
                                        if k < 0x1FC1E02699 { 798 } else { 776 }
                                    }
                                } else {
                                    if k < 0x1FC1E026A0 {
                                        if k < 0x1FC1E0269C { 959 } else { 1013 }
                                    } else {
                                        if k < 0x1FC1E026B0 { 1010 } else {
                                            if k < 0x1FC1E026B1 { 790 } else { 792 }
                                        }
                                    }
                                }
                            }
                        } else {
                            if k < 0x1FC1E026F9 {
                                if k < 0x1FC1E026F0 {
                                    if k < 0x1FC1E026D3 {
                                        if k < 0x1FC1E026CF { 366 } else { 773 }
                                    } else {
                                        if k < 0x1FC1E026E9 { 779 } else { 694 }
                                    }
                                } else {
                                    if k < 0x1FC1E026F4 {
                                        if k < 0x1FC1E026F1 { 665 } else { 660 }
                                    } else {
                                        if k < 0x1FC1E026F7 { 641 } else {
                                            if k < 0x1FC1E026F8 { 531 } else { 528 }
                                        }
                                    }
                                }
                            } else {
                                if k < 0x1FC1E0270C {
                                    if k < 0x1FC1E02708 {
                                        if k < 0x1FC1E02702 { 537 } else { 901 }
                                    } else {
                                        if k < 0x1FC1E02709 { 627 } else { 844 }
                                    }
                                } else {
                                    if k < 0x1FC1E0270F {
                                        if k < 0x1FC1E0270D { 119 } else { 142 }
                                    } else {
                                        if k < 0x1FC1E02712 { 908 } else {
                                            if k < 0x1FC1E02714 { 904 } else { 1136 }
                                        }
                                    }
                                }
                            }
                        }
                    } else {
                        if k < 0x1FC1E1F321 {
                            if k < 0x1FC1E03030 {
                                if k < 0x1FC1E02734 {
                                    if k < 0x1FC1E02721 {
                                        if k < 0x1FC1E0271D { 1126 } else { 935 }
                                    } else {
                                        if k < 0x1FC1E02733 { 939 } else { 1020 }
                                    }
                                } else {
                                    if k < 0x1FC1E02747 {
                                        if k < 0x1FC1E02744 { 970 } else { 367 }
                                    } else {
                                        if k < 0x1FC1E02763 { 1019 } else {
                                            if k < 0x1FC1E02764 { 925 } else { 915 }
                                        }
                                    }
                                }
                            } else {
                                if k < 0x1FC1E1F171 {
                                    if k < 0x1FC1E03299 {
                                        if k < 0x1FC1E03297 { 1133 } else { 975 }
                                    } else {
                                        if k < 0x1FC1E1F170 { 974 } else { 980 }
                                    }
                                } else {
                                    if k < 0x1FC1E1F17F {
                                        if k < 0x1FC1E1F17E { 981 } else { 984 }
                                    } else {
                                        if k < 0x1FC1E1F202 { 1030 } else {
                                            if k < 0x1FC1E1F237 { 1033 } else { 969 }
                                        }
                                    }
                                }
                            }
                        } else {
                            if k < 0x1FC1E1F399 {
                                if k < 0x1FC1E1F32C {
                                    if k < 0x1FC1E1F327 {
                                        if k < 0x1FC1E1F324 { 811 } else { 363 }
                                    } else {
                                        if k < 0x1FC1E1F32A { 365 } else { 372 }
                                    }
                                } else {
                                    if k < 0x1FC1E1F37D {
                                        if k < 0x1FC1E1F336 { 370 } else { 400 }
                                    } else {
                                        if k < 0x1FC1E1F396 { 496 } else {
                                            if k < 0x1FC1E1F397 { 555 } else { 557 }
                                        }
                                    }
                                }
                            } else {
                                if k < 0x1FC1E1F3CB {
                                    if k < 0x1FC1E1F39B {
                                        if k < 0x1FC1E1F39A { 737 } else { 738 }
                                    } else {
                                        if k < 0x1FC1E1F39F { 739 } else { 559 }
                                    }
                                } else {
                                    if k < 0x1FC1E1F3CD {
                                        if k < 0x1FC1E1F3CC { 534 } else { 540 }
                                    } else {
                                        if k < 0x1FC1E1F3CE { 605 } else {
                                            if k < 0x1FC1E1F3D4 { 590 } else { 666 }
                                        }
                                    }
                                }
                            }
                        }
                    }
                } else {
                    if k < 0x1FC1E1F5BC {
                        if k < 0x1FC1E1F56F {
                            if k < 0x1FC1E1F3DE {
                                if k < 0x1FC1E1F3D9 {
                                    if k < 0x1FC1E1F3D7 {
                                        if k < 0x1FC1E1F3D6 { 668 } else { 661 }
                                    } else {
                                        if k < 0x1FC1E1F3D8 { 675 } else { 673 }
                                    }
                                } else {
                                    if k < 0x1FC1E1F3DB {
                                        if k < 0x1FC1E1F3DA { 707 } else { 674 }
                                    } else {
                                        if k < 0x1FC1E1F3DC { 688 } else {
                                            if k < 0x1FC1E1F3DD { 663 } else { 662 }
                                        }
                                    }
                                }
                            } else {
                                if k < 0x1FC1E1F43F {
                                    if k < 0x1FC1E1F3F5 {
                                        if k < 0x1FC1E1F3DF { 699 } else { 655 }
                                    } else {
                                        if k < 0x1FC1E1F3F7 { 556 } else { 852 }
                                    }
                                } else {
                                    if k < 0x1FC1E1F4FD {
                                        if k < 0x1FC1E1F441 { 323 } else { 153 }
                                    } else {
                                        if k < 0x1FC1E1F549 { 730 } else {
                                            if k < 0x1FC1E1F54A { 937 } else { 313 }
                                        }
                                    }
                                }
                            }
                        } else {
                            if k < 0x1FC1E1F58A {
                                if k < 0x1FC1E1F575 {
                                    if k < 0x1FC1E1F573 {
                                        if k < 0x1FC1E1F570 { 752 } else { 744 }
                                    } else {
                                        if k < 0x1FC1E1F574 { 801 } else { 211 }
                                    }
                                } else {
                                    if k < 0x1FC1E1F578 {
                                        if k < 0x1FC1E1F577 { 178 } else { 259 }
                                    } else {
                                        if k < 0x1FC1E1F579 { 260 } else {
                                            if k < 0x1FC1E1F587 { 582 } else { 895 }
                                        }
                                    }
                                }
                            } else {
                                if k < 0x1FC1E1F590 {
                                    if k < 0x1FC1E1F58C {
                                        if k < 0x1FC1E1F58B { 902 } else { 903 }
                                    } else {
                                        if k < 0x1FC1E1F58D { 905 } else { 906 }
                                    }
                                } else {
                                    if k < 0x1FC1E1F5A8 {
                                        if k < 0x1FC1E1F5A5 { 113 } else { 717 }
                                    } else {
                                        if k < 0x1FC1E1F5B1 { 718 } else {
                                            if k < 0x1FC1E1F5B2 { 719 } else { 720 }
                                        }
                                    }
                                }
                            }
                        }
                    } else {
                        if k < 0x1FC1E1F6E3 {
                            if k < 0x1FC1E1F5EF {
                                if k < 0x1FC1E1F5D1 {
                                    if k < 0x1FC1E1F5C3 {
                                        if k < 0x1FC1E1F5C2 { 834 } else { 880 }
                                    } else {
                                        if k < 0x1FC1E1F5C4 { 874 } else { 876 }
                                    }
                                } else {
                                    if k < 0x1FC1E1F5D3 {
                                        if k < 0x1FC1E1F5D2 { 872 } else { 868 }
                                    } else {
                                        if k < 0x1FC1E1F5DE { 869 } else {
                                            if k < 0x1FC1E1F5E1 { 881 } else { 786 }
                                        }
                                    }
                                }
                            } else {
                                if k < 0x1FC1E1F6CD {
                                    if k < 0x1FC1E1F5FA {
                                        if k < 0x1FC1E1F5F3 { 1113 } else { 875 }
                                    } else {
                                        if k < 0x1FC1E1F6CB { 649 } else { 831 }
                                    }
                                } else {
                                    if k < 0x1FC1E1F6E0 {
                                        if k < 0x1FC1E1F6CF { 835 } else { 830 }
                                    } else {
                                        if k < 0x1FC1E1F6E1 { 772 } else {
                                            if k < 0x1FC1E1F6E2 { 788 } else { 755 }
                                        }
                                    }
                                }
                            }
                        } else {
                            if k < 0x838C1FC1E00031 {
                                if k < 0x1FC1E1F6F0 {
                                    if k < 0x1FC1E1F6E5 {
                                        if k < 0x1FC1E1F6E4 { 696 } else { 695 }
                                    } else {
                                        if k < 0x1FC1E1F6E9 { 639 } else { 630 }
                                    }
                                } else {
                                    if k < 0x838C1FC1E00023 {
                                        if k < 0x1FC1E1F6F3 { 632 } else { 640 }
                                    } else {
                                        if k < 0x838C1FC1E0002A { 1069 } else {
                                            if k < 0x838C1FC1E00030 { 1070 } else { 1057 }
                                        }
                                    }
                                }
                            } else {
                                if k < 0x838C1FC1E00035 {
                                    if k < 0x838C1FC1E00033 {
                                        if k < 0x838C1FC1E00032 { 1058 } else { 1059 }
                                    } else {
                                        if k < 0x838C1FC1E00034 { 1060 } else { 1061 }
                                    }
                                } else {
                                    if k < 0x838C1FC1E00037 {
                                        if k < 0x838C1FC1E00036 { 1062 } else { 1063 }
                                    } else {
                                        if k < 0x838C1FC1E00038 { 1064 } else {
                                            if k < 0x838C1FC1E00039 { 1065 } else { 1066 }
                                        }
                                    }
                                }
                            }
                        }
                    }
                }
            }
        }
    }
}

/// Every glyph of `table` is well formed and its key leads to its own place,
/// `offset` onwards.
spec fn well_formed_table(table: Seq<Seq<u32>>, offset: int) -> bool {
    forall|i: int|
        0 <= i < table.len() ==> glyph_ok(#[trigger] table[i]) && glyph_slot(
            glyph_key(glyph_text(table[i])),
        ) == offset + i
}

#[verifier::rlimit(60)]
proof fn lemma_smileys_table()
    ensures
        well_formed_table(smileys_glyphs(), 0),
{
}

#[verifier::rlimit(60)]
proof fn lemma_people_table()
    ensures
        well_formed_table(people_glyphs(), 111),
{
}

#[verifier::rlimit(60)]
proof fn lemma_nature_table()
    ensures
        well_formed_table(nature_glyphs(), 214),
{
}

#[verifier::rlimit(60)]
proof fn lemma_food_table()
    ensures
        well_formed_table(food_glyphs(), 377),
{
}

#[verifier::rlimit(60)]
proof fn lemma_activities_table()
    ensures
        well_formed_table(activities_glyphs(), 499),
{
}

#[verifier::rlimit(60)]
proof fn lemma_travel_table()
    ensures
        well_formed_table(travel_glyphs(), 585),
{
}

#[verifier::rlimit(60)]
proof fn lemma_objects_table()
    ensures
        well_formed_table(objects_glyphs(), 712),
{
}

#[verifier::rlimit(60)]
proof fn lemma_symbols_table()
    ensures
        well_formed_table(symbols_glyphs(), 915),
{
}

proof fn lemma_table(c: EmojiCategory)
    ensures
        well_formed_table(glyph_code_points(c), catalog_offset(c)),
        glyph_code_points(c).len() == catalog_offset_end(c) - catalog_offset(c),
{
    match c {
        EmojiCategory::Smileys => lemma_smileys_table(),
        EmojiCategory::People => lemma_people_table(),
        EmojiCategory::Nature => lemma_nature_table(),
        EmojiCategory::Food => lemma_food_table(),
        EmojiCategory::Activities => lemma_activities_table(),
        EmojiCategory::Travel => lemma_travel_table(),
        EmojiCategory::Objects => lemma_objects_table(),
        EmojiCategory::Symbols => lemma_symbols_table(),
    }
}

/// Where a category's glyphs end among all the picker's glyphs.
spec fn catalog_offset_end(c: EmojiCategory) -> int {
    match c {
        EmojiCategory::Smileys => 111,
        EmojiCategory::People => 214,
        EmojiCategory::Nature => 377,
        EmojiCategory::Food => 499,
        EmojiCategory::Activities => 585,
        EmojiCategory::Travel => 712,
        EmojiCategory::Objects => 915,
        EmojiCategory::Symbols => 1139,
    }
}

/// Every tab offers glyphs; no glyph is empty or holds whitespace; no glyph
/// appears twice, within one tab or across two; and the tabs offer at least
/// two hundred glyphs together.
pub proof fn law_emoji_catalogs_are_non_blank_and_distinct()
    ensures
        forall|c: EmojiCategory| #[trigger] catalog(c).len() > 0,
        forall|c: EmojiCategory, i: int|
            0 <= i < catalog(c).len() ==> (#[trigger] catalog(c)[i]).len() > 0 && forall|k: int|
                0 <= k < catalog(c)[i].len() ==> !text::is_ws(#[trigger] catalog(c)[i][k]),
        forall|c: EmojiCategory, d: EmojiCategory, i: int, j: int|
            0 <= i < catalog(c).len() && 0 <= j < catalog(d).len() && #[trigger] catalog(c)[i]
                == #[trigger] catalog(d)[j] ==> c == d && i == j,
        catalog_total() >= 200,
{
    assert forall|c: EmojiCategory| #[trigger] catalog(c).len() > 0 by {
        lemma_table(c);
    }
    assert forall|c: EmojiCategory, i: int| 0 <= i < catalog(c).len() implies (
    #[trigger] catalog(c)[i]).len() > 0 && forall|k: int|
        0 <= k < catalog(c)[i].len() ==> !text::is_ws(#[trigger] catalog(c)[i][k]) by {
        lemma_table(c);
        assert(glyph_ok(glyph_code_points(c)[i]));
    }
    assert forall|c: EmojiCategory, d: EmojiCategory, i: int, j: int|
        0 <= i < catalog(c).len() && 0 <= j < catalog(d).len() && #[trigger] catalog(c)[i]
            == #[trigger] catalog(d)[j] implies c == d && i == j by {
        lemma_table(c);
        lemma_table(d);
        assert(glyph_ok(glyph_code_points(c)[i]));
        assert(glyph_ok(glyph_code_points(d)[j]));
        assert(glyph_slot(glyph_key(catalog(c)[i])) == catalog_offset(c) + i);
        assert(glyph_slot(glyph_key(catalog(d)[j])) == catalog_offset(d) + j);
    }
    lemma_table(EmojiCategory::Smileys);
    lemma_table(EmojiCategory::People);
    lemma_table(EmojiCategory::Nature);
    lemma_table(EmojiCategory::Food);
    lemma_table(EmojiCategory::Activities);
    lemma_table(EmojiCategory::Travel);
    lemma_table(EmojiCategory::Objects);
    lemma_table(EmojiCategory::Symbols);
}

/// `value` with `emoji` placed after its first `offset` characters, or at
/// its end when it has fewer.
pub open spec fn inserted_at(value: Seq<char>, offset: nat, emoji: Seq<char>) -> Seq<char> {
    let k: int = if offset <= value.len() {
        offset as int
    } else {
        value.len() as int
    };
    value.take(k) + emoji + value.skip(k)
}

/// Inserts `emoji` into `value` after `offset` Unicode scalar values.
pub fn insert_at_char_offset(value: &str, offset: usize, emoji: &str) -> (r: String)
    ensures
        r@ == inserted_at(value@, offset as nat, emoji@),
{
    let v = text::chars_of(value);
    let k: usize = if offset < v.len() {
        offset
    } else {
        v.len()
    };
    let mut out = String::new();
    let mut i: usize = 0;
    while i < k
        invariant
            i <= k <= v@.len(),
            out@ == v@.take(i as int),
        decreases k - i,
    {
        text::push_char(&mut out, v[i]);
        assert(v@.take(i + 1) == v@.take(i as int).push(v@[i as int]));
        i = i + 1;
    }
    text::push_str(&mut out, emoji);
    while i < v.len()
        invariant
            k <= i <= v@.len(),
            out@ == v@.take(k as int) + emoji@ + v@.subrange(k as int, i as int),
        decreases v@.len() - i,
    {
        text::push_char(&mut out, v[i]);
        assert(v@.subrange(k as int, i + 1) == v@.subrange(k as int, i as int).push(v@[i as int]));
        i = i + 1;
    }
    assert(v@.subrange(k as int, v@.len() as int) == v@.skip(k as int));
    out
}

/// Whether the emoji picker stays open: only while the composer can be
/// used; it closes whenever composing is not possible (no session that can
/// send, no chat, or an attachment or edit on its way).
pub fn picker_stays_open(can_compose: bool, picker_open: bool) -> (r: bool)
    ensures
        r == (can_compose && picker_open),
        !can_compose ==> !r,
{
    can_compose && picker_open
}

} // verus!
