//! The named-color table: the full CSS named-color set, as byte triples.
//!
//! The table maps lower-case names to the red, green and blue bytes of the
//! color, with alpha understood as fully opaque. Lookup is by the exact
//! lower-case spelling; callers fold ASCII case before looking a name up,
//! so `Red` and `red` behave alike.

use vstd::prelude::*;
use vstd::string::StringSliceAdditionalSpecFns;

use crate::text::bytes_eq_str;

verus! {

/// The red, green and blue bytes of a named CSS color, or `None` when the
/// name — already folded to lower case — is not in the table.
///
/// The definition is opaque so that reasoning about the grammar does not
/// unfold the whole table; [`lookup_folded`] is proved against it directly.
#[verifier::opaque]
pub open spec fn css_rgb(name: Seq<u8>) -> Option<(u8, u8, u8)> {
    if name == "aliceblue".spec_bytes() {
        Some((240u8, 248u8, 255u8))
    } else if name == "antiquewhite".spec_bytes() {
        Some((250u8, 235u8, 215u8))
    } else if name == "aqua".spec_bytes() {
        Some((0u8, 255u8, 255u8))
    } else if name == "aquamarine".spec_bytes() {
        Some((127u8, 255u8, 212u8))
    } else if name == "azure".spec_bytes() {
        Some((240u8, 255u8, 255u8))
    } else if name == "beige".spec_bytes() {
        Some((245u8, 245u8, 220u8))
    } else if name == "bisque".spec_bytes() {
        Some((255u8, 228u8, 196u8))
    } else if name == "black".spec_bytes() {
        Some((0u8, 0u8, 0u8))
    } else if name == "blanchedalmond".spec_bytes() {
        Some((255u8, 235u8, 205u8))
    } else if name == "blue".spec_bytes() {
        Some((0u8, 0u8, 255u8))
    } else if name == "blueviolet".spec_bytes() {
        Some((138u8, 43u8, 226u8))
    } else if name == "brown".spec_bytes() {
        Some((165u8, 42u8, 42u8))
    } else if name == "burlywood".spec_bytes() {
        Some((222u8, 184u8, 135u8))
    } else if name == "cadetblue".spec_bytes() {
        Some((95u8, 158u8, 160u8))
    } else if name == "chartreuse".spec_bytes() {
        Some((127u8, 255u8, 0u8))
    } else if name == "chocolate".spec_bytes() {
        Some((210u8, 105u8, 30u8))
    } else if name == "coral".spec_bytes() {
        Some((255u8, 127u8, 80u8))
    } else if name == "cornflowerblue".spec_bytes() {
        Some((100u8, 149u8, 237u8))
    } else if name == "cornsilk".spec_bytes() {
        Some((255u8, 248u8, 220u8))
    } else if name == "crimson".spec_bytes() {
        Some((220u8, 20u8, 60u8))
    } else if name == "cyan".spec_bytes() {
        Some((0u8, 255u8, 255u8))
    } else if name == "darkblue".spec_bytes() {
        Some((0u8, 0u8, 139u8))
    } else if name == "darkcyan".spec_bytes() {
        Some((0u8, 139u8, 139u8))
    } else if name == "darkgoldenrod".spec_bytes() {
        Some((184u8, 134u8, 11u8))
    } else if name == "darkgray".spec_bytes() {
        Some((169u8, 169u8, 169u8))
    } else if name == "darkgreen".spec_bytes() {
        Some((0u8, 100u8, 0u8))
    } else if name == "darkgrey".spec_bytes() {
        Some((169u8, 169u8, 169u8))
    } else if name == "darkkhaki".spec_bytes() {
        Some((189u8, 183u8, 107u8))
    } else if name == "darkmagenta".spec_bytes() {
        Some((139u8, 0u8, 139u8))
    } else if name == "darkolivegreen".spec_bytes() {
        Some((85u8, 107u8, 47u8))
    } else if name == "darkorange".spec_bytes() {
        Some((255u8, 140u8, 0u8))
    } else if name == "darkorchid".spec_bytes() {
        Some((153u8, 50u8, 204u8))
    } else if name == "darkred".spec_bytes() {
        Some((139u8, 0u8, 0u8))
    } else if name == "darksalmon".spec_bytes() {
        Some((233u8, 150u8, 122u8))
    } else if name == "darkseagreen".spec_bytes() {
        Some((143u8, 188u8, 143u8))
    } else if name == "darkslateblue".spec_bytes() {
        Some((72u8, 61u8, 139u8))
    } else if name == "darkslategray".spec_bytes() {
        Some((47u8, 79u8, 79u8))
    } else if name == "darkslategrey".spec_bytes() {
        Some((47u8, 79u8, 79u8))
    } else if name == "darkturquoise".spec_bytes() {
        Some((0u8, 206u8, 209u8))
    } else if name == "darkviolet".spec_bytes() {
        Some((148u8, 0u8, 211u8))
    } else if name == "deeppink".spec_bytes() {
        Some((255u8, 20u8, 147u8))
    } else if name == "deepskyblue".spec_bytes() {
        Some((0u8, 191u8, 255u8))
    } else if name == "dimgray".spec_bytes() {
        Some((105u8, 105u8, 105u8))
    } else if name == "dimgrey".spec_bytes() {
        Some((105u8, 105u8, 105u8))
    } else if name == "dodgerblue".spec_bytes() {
        Some((30u8, 144u8, 255u8))
    } else if name == "firebrick".spec_bytes() {
        Some((178u8, 34u8, 34u8))
    } else if name == "floralwhite".spec_bytes() {
        Some((255u8, 250u8, 240u8))
    } else if name == "forestgreen".spec_bytes() {
        Some((34u8, 139u8, 34u8))
    } else if name == "fuchsia".spec_bytes() {
        Some((255u8, 0u8, 255u8))
    } else if name == "gainsboro".spec_bytes() {
        Some((220u8, 220u8, 220u8))
    } else if name == "ghostwhite".spec_bytes() {
        Some((248u8, 248u8, 255u8))
    } else if name == "gold".spec_bytes() {
        Some((255u8, 215u8, 0u8))
    } else if name == "goldenrod".spec_bytes() {
        Some((218u8, 165u8, 32u8))
    } else if name == "gray".spec_bytes() {
        Some((128u8, 128u8, 128u8))
    } else if name == "green".spec_bytes() {
        Some((0u8, 128u8, 0u8))
    } else if name == "greenyellow".spec_bytes() {
        Some((173u8, 255u8, 47u8))
    } else if name == "grey".spec_bytes() {
        Some((128u8, 128u8, 128u8))
    } else if name == "honeydew".spec_bytes() {
        Some((240u8, 255u8, 240u8))
    } else if name == "hotpink".spec_bytes() {
        Some((255u8, 105u8, 180u8))
    } else if name == "indianred".spec_bytes() {
        Some((205u8, 92u8, 92u8))
    } else if name == "indigo".spec_bytes() {
        Some((75u8, 0u8, 130u8))
    } else if name == "ivory".spec_bytes() {
        Some((255u8, 255u8, 240u8))
    } else if name == "khaki".spec_bytes() {
        Some((240u8, 230u8, 140u8))
    } else if name == "lavender".spec_bytes() {
        Some((230u8, 230u8, 250u8))
    } else if name == "lavenderblush".spec_bytes() {
        Some((255u8, 240u8, 245u8))
    } else if name == "lawngreen".spec_bytes() {
        Some((124u8, 252u8, 0u8))
    } else if name == "lemonchiffon".spec_bytes() {
        Some((255u8, 250u8, 205u8))
    } else if name == "lightblue".spec_bytes() {
        Some((173u8, 216u8, 230u8))
    } else if name == "lightcoral".spec_bytes() {
        Some((240u8, 128u8, 128u8))
    } else if name == "lightcyan".spec_bytes() {
        Some((224u8, 255u8, 255u8))
    } else if name == "lightgoldenrodyellow".spec_bytes() {
        Some((250u8, 250u8, 210u8))
    } else if name == "lightgray".spec_bytes() {
        Some((211u8, 211u8, 211u8))
    } else if name == "lightgreen".spec_bytes() {
        Some((144u8, 238u8, 144u8))
    } else if name == "lightgrey".spec_bytes() {
        Some((211u8, 211u8, 211u8))
    } else if name == "lightpink".spec_bytes() {
        Some((255u8, 182u8, 193u8))
    } else if name == "lightsalmon".spec_bytes() {
        Some((255u8, 160u8, 122u8))
    } else if name == "lightseagreen".spec_bytes() {
        Some((32u8, 178u8, 170u8))
    } else if name == "lightskyblue".spec_bytes() {
        Some((135u8, 206u8, 250u8))
    } else if name == "lightslategray".spec_bytes() {
        Some((119u8, 136u8, 153u8))
    } else if name == "lightslategrey".spec_bytes() {
        Some((119u8, 136u8, 153u8))
    } else if name == "lightsteelblue".spec_bytes() {
        Some((176u8, 196u8, 222u8))
    } else if name == "lightyellow".spec_bytes() {
        Some((255u8, 255u8, 224u8))
    } else if name == "lime".spec_bytes() {
        Some((0u8, 255u8, 0u8))
    } else if name == "limegreen".spec_bytes() {
        Some((50u8, 205u8, 50u8))
    } else if name == "linen".spec_bytes() {
        Some((250u8, 240u8, 230u8))
    } else if name == "magenta".spec_bytes() {
        Some((255u8, 0u8, 255u8))
    } else if name == "maroon".spec_bytes() {
        Some((128u8, 0u8, 0u8))
    } else if name == "mediumaquamarine".spec_bytes() {
        Some((102u8, 205u8, 170u8))
    } else if name == "mediumblue".spec_bytes() {
        Some((0u8, 0u8, 205u8))
    } else if name == "mediumorchid".spec_bytes() {
        Some((186u8, 85u8, 211u8))
    } else if name == "mediumpurple".spec_bytes() {
        Some((147u8, 112u8, 219u8))
    } else if name == "mediumseagreen".spec_bytes() {
        Some((60u8, 179u8, 113u8))
    } else if name == "mediumslateblue".spec_bytes() {
        Some((123u8, 104u8, 238u8))
    } else if name == "mediumspringgreen".spec_bytes() {
        Some((0u8, 250u8, 154u8))
    } else if name == "mediumturquoise".spec_bytes() {
        Some((72u8, 209u8, 204u8))
    } else if name == "mediumvioletred".spec_bytes() {
        Some((199u8, 21u8, 133u8))
    } else if name == "midnightblue".spec_bytes() {
        Some((25u8, 25u8, 112u8))
    } else if name == "mintcream".spec_bytes() {
        Some((245u8, 255u8, 250u8))
    } else if name == "mistyrose".spec_bytes() {
        Some((255u8, 228u8, 225u8))
    } else if name == "moccasin".spec_bytes() {
        Some((255u8, 228u8, 181u8))
    } else if name == "navajowhite".spec_bytes() {
        Some((255u8, 222u8, 173u8))
    } else if name == "navy".spec_bytes() {
        Some((0u8, 0u8, 128u8))
    } else if name == "oldlace".spec_bytes() {
        Some((253u8, 245u8, 230u8))
    } else if name == "olive".spec_bytes() {
        Some((128u8, 128u8, 0u8))
    } else if name == "olivedrab".spec_bytes() {
        Some((107u8, 142u8, 35u8))
    } else if name == "orange".spec_bytes() {
        Some((255u8, 165u8, 0u8))
    } else if name == "orangered".spec_bytes() {
        Some((255u8, 69u8, 0u8))
    } else if name == "orchid".spec_bytes() {
        Some((218u8, 112u8, 214u8))
    } else if name == "palegoldenrod".spec_bytes() {
        Some((238u8, 232u8, 170u8))
    } else if name == "palegreen".spec_bytes() {
        Some((152u8, 251u8, 152u8))
    } else if name == "paleturquoise".spec_bytes() {
        Some((175u8, 238u8, 238u8))
    } else if name == "palevioletred".spec_bytes() {
        Some((219u8, 112u8, 147u8))
    } else if name == "papayawhip".spec_bytes() {
        Some((255u8, 239u8, 213u8))
    } else if name == "peachpuff".spec_bytes() {
        Some((255u8, 218u8, 185u8))
    } else if name == "peru".spec_bytes() {
        Some((205u8, 133u8, 63u8))
    } else if name == "pink".spec_bytes() {
        Some((255u8, 192u8, 203u8))
    } else if name == "plum".spec_bytes() {
        Some((221u8, 160u8, 221u8))
    } else if name == "powderblue".spec_bytes() {
        Some((176u8, 224u8, 230u8))
    } else if name == "purple".spec_bytes() {
        Some((128u8, 0u8, 128u8))
    } else if name == "rebeccapurple".spec_bytes() {
        Some((102u8, 51u8, 153u8))
    } else if name == "red".spec_bytes() {
        Some((255u8, 0u8, 0u8))
    } else if name == "rosybrown".spec_bytes() {
        Some((188u8, 143u8, 143u8))
    } else if name == "royalblue".spec_bytes() {
        Some((65u8, 105u8, 225u8))
    } else if name == "saddlebrown".spec_bytes() {
        Some((139u8, 69u8, 19u8))
    } else if name == "salmon".spec_bytes() {
        Some((250u8, 128u8, 114u8))
    } else if name == "sandybrown".spec_bytes() {
        Some((244u8, 164u8, 96u8))
    } else if name == "seagreen".spec_bytes() {
        Some((46u8, 139u8, 87u8))
    } else if name == "seashell".spec_bytes() {
        Some((255u8, 245u8, 238u8))
    } else if name == "sienna".spec_bytes() {
        Some((160u8, 82u8, 45u8))
    } else if name == "silver".spec_bytes() {
        Some((192u8, 192u8, 192u8))
    } else if name == "skyblue".spec_bytes() {
        Some((135u8, 206u8, 235u8))
    } else if name == "slateblue".spec_bytes() {
        Some((106u8, 90u8, 205u8))
    } else if name == "slategray".spec_bytes() {
        Some((112u8, 128u8, 144u8))
    } else if name == "slategrey".spec_bytes() {
        Some((112u8, 128u8, 144u8))
    } else if name == "snow".spec_bytes() {
        Some((255u8, 250u8, 250u8))
    } else if name == "springgreen".spec_bytes() {
        Some((0u8, 255u8, 127u8))
    } else if name == "steelblue".spec_bytes() {
        Some((70u8, 130u8, 180u8))
    } else if name == "tan".spec_bytes() {
        Some((210u8, 180u8, 140u8))
    } else if name == "teal".spec_bytes() {
        Some((0u8, 128u8, 128u8))
    } else if name == "thistle".spec_bytes() {
        Some((216u8, 191u8, 216u8))
    } else if name == "tomato".spec_bytes() {
        Some((255u8, 99u8, 71u8))
    } else if name == "turquoise".spec_bytes() {
        Some((64u8, 224u8, 208u8))
    } else if name == "violet".spec_bytes() {
        Some((238u8, 130u8, 238u8))
    } else if name == "wheat".spec_bytes() {
        Some((245u8, 222u8, 179u8))
    } else if name == "white".spec_bytes() {
        Some((255u8, 255u8, 255u8))
    } else if name == "whitesmoke".spec_bytes() {
        Some((245u8, 245u8, 245u8))
    } else if name == "yellow".spec_bytes() {
        Some((255u8, 255u8, 0u8))
    } else if name == "yellowgreen".spec_bytes() {
        Some((154u8, 205u8, 50u8))
    } else {
        None
    }
}

/// Look a lower-case color name up in the table.
pub fn lookup_folded(name: &[u8]) -> (r: Option<(u8, u8, u8)>)
    ensures
        r == css_rgb(name@),
{
    proof {
        reveal(css_rgb);
    }
    if bytes_eq_str(name, "aliceblue") {
        Some((240, 248, 255))
    } else if bytes_eq_str(name, "antiquewhite") {
        Some((250, 235, 215))
    } else if bytes_eq_str(name, "aqua") {
        Some((0, 255, 255))
    } else if bytes_eq_str(name, "aquamarine") {
        Some((127, 255, 212))
    } else if bytes_eq_str(name, "azure") {
        Some((240, 255, 255))
    } else if bytes_eq_str(name, "beige") {
        Some((245, 245, 220))
    } else if bytes_eq_str(name, "bisque") {
        Some((255, 228, 196))
    } else if bytes_eq_str(name, "black") {
        Some((0, 0, 0))
    } else if bytes_eq_str(name, "blanchedalmond") {
        Some((255, 235, 205))
    } else if bytes_eq_str(name, "blue") {
        Some((0, 0, 255))
    } else if bytes_eq_str(name, "blueviolet") {
        Some((138, 43, 226))
    } else if bytes_eq_str(name, "brown") {
        Some((165, 42, 42))
    } else if bytes_eq_str(name, "burlywood") {
        Some((222, 184, 135))
    } else if bytes_eq_str(name, "cadetblue") {
        Some((95, 158, 160))
    } else if bytes_eq_str(name, "chartreuse") {
        Some((127, 255, 0))
    } else if bytes_eq_str(name, "chocolate") {
        Some((210, 105, 30))
    } else if bytes_eq_str(name, "coral") {
        Some((255, 127, 80))
    } else if bytes_eq_str(name, "cornflowerblue") {
        Some((100, 149, 237))
    } else if bytes_eq_str(name, "cornsilk") {
        Some((255, 248, 220))
    } else if bytes_eq_str(name, "crimson") {
        Some((220, 20, 60))
    } else if bytes_eq_str(name, "cyan") {
        Some((0, 255, 255))
    } else if bytes_eq_str(name, "darkblue") {
        Some((0, 0, 139))
    } else if bytes_eq_str(name, "darkcyan") {
        Some((0, 139, 139))
    } else if bytes_eq_str(name, "darkgoldenrod") {
        Some((184, 134, 11))
    } else if bytes_eq_str(name, "darkgray") {
        Some((169, 169, 169))
    } else if bytes_eq_str(name, "darkgreen") {
        Some((0, 100, 0))
    } else if bytes_eq_str(name, "darkgrey") {
        Some((169, 169, 169))
    } else if bytes_eq_str(name, "darkkhaki") {
        Some((189, 183, 107))
    } else if bytes_eq_str(name, "darkmagenta") {
        Some((139, 0, 139))
    } else if bytes_eq_str(name, "darkolivegreen") {
        Some((85, 107, 47))
    } else if bytes_eq_str(name, "darkorange") {
        Some((255, 140, 0))
    } else if bytes_eq_str(name, "darkorchid") {
        Some((153, 50, 204))
    } else if bytes_eq_str(name, "darkred") {
        Some((139, 0, 0))
    } else if bytes_eq_str(name, "darksalmon") {
        Some((233, 150, 122))
    } else if bytes_eq_str(name, "darkseagreen") {
        Some((143, 188, 143))
    } else if bytes_eq_str(name, "darkslateblue") {
        Some((72, 61, 139))
    } else if bytes_eq_str(name, "darkslategray") {
        Some((47, 79, 79))
    } else if bytes_eq_str(name, "darkslategrey") {
        Some((47, 79, 79))
    } else if bytes_eq_str(name, "darkturquoise") {
        Some((0, 206, 209))
    } else if bytes_eq_str(name, "darkviolet") {
        Some((148, 0, 211))
    } else if bytes_eq_str(name, "deeppink") {
        Some((255, 20, 147))
    } else if bytes_eq_str(name, "deepskyblue") {
        Some((0, 191, 255))
    } else if bytes_eq_str(name, "dimgray") {
        Some((105, 105, 105))
    } else if bytes_eq_str(name, "dimgrey") {
        Some((105, 105, 105))
    } else if bytes_eq_str(name, "dodgerblue") {
        Some((30, 144, 255))
    } else if bytes_eq_str(name, "firebrick") {
        Some((178, 34, 34))
    } else if bytes_eq_str(name, "floralwhite") {
        Some((255, 250, 240))
    } else if bytes_eq_str(name, "forestgreen") {
        Some((34, 139, 34))
    } else if bytes_eq_str(name, "fuchsia") {
        Some((255, 0, 255))
    } else if bytes_eq_str(name, "gainsboro") {
        Some((220, 220, 220))
    } else if bytes_eq_str(name, "ghostwhite") {
        Some((248, 248, 255))
    } else if bytes_eq_str(name, "gold") {
        Some((255, 215, 0))
    } else if bytes_eq_str(name, "goldenrod") {
        Some((218, 165, 32))
    } else if bytes_eq_str(name, "gray") {
        Some((128, 128, 128))
    } else if bytes_eq_str(name, "green") {
        Some((0, 128, 0))
    } else if bytes_eq_str(name, "greenyellow") {
        Some((173, 255, 47))
    } else if bytes_eq_str(name, "grey") {
        Some((128, 128, 128))
    } else if bytes_eq_str(name, "honeydew") {
        Some((240, 255, 240))
    } else if bytes_eq_str(name, "hotpink") {
        Some((255, 105, 180))
    } else if bytes_eq_str(name, "indianred") {
        Some((205, 92, 92))
    } else if bytes_eq_str(name, "indigo") {
        Some((75, 0, 130))
    } else if bytes_eq_str(name, "ivory") {
        Some((255, 255, 240))
    } else if bytes_eq_str(name, "khaki") {
        Some((240, 230, 140))
    } else if bytes_eq_str(name, "lavender") {
        Some((230, 230, 250))
    } else if bytes_eq_str(name, "lavenderblush") {
        Some((255, 240, 245))
    } else if bytes_eq_str(name, "lawngreen") {
        Some((124, 252, 0))
    } else if bytes_eq_str(name, "lemonchiffon") {
        Some((255, 250, 205))
    } else if bytes_eq_str(name, "lightblue") {
        Some((173, 216, 230))
    } else if bytes_eq_str(name, "lightcoral") {
        Some((240, 128, 128))
    } else if bytes_eq_str(name, "lightcyan") {
        Some((224, 255, 255))
    } else if bytes_eq_str(name, "lightgoldenrodyellow") {
        Some((250, 250, 210))
    } else if bytes_eq_str(name, "lightgray") {
        Some((211, 211, 211))
    } else if bytes_eq_str(name, "lightgreen") {
        Some((144, 238, 144))
    } else if bytes_eq_str(name, "lightgrey") {
        Some((211, 211, 211))
    } else if bytes_eq_str(name, "lightpink") {
        Some((255, 182, 193))
    } else if bytes_eq_str(name, "lightsalmon") {
        Some((255, 160, 122))
    } else if bytes_eq_str(name, "lightseagreen") {
        Some((32, 178, 170))
    } else if bytes_eq_str(name, "lightskyblue") {
        Some((135, 206, 250))
    } else if bytes_eq_str(name, "lightslategray") {
        Some((119, 136, 153))
    } else if bytes_eq_str(name, "lightslategrey") {
        Some((119, 136, 153))
    } else if bytes_eq_str(name, "lightsteelblue") {
        Some((176, 196, 222))
    } else if bytes_eq_str(name, "lightyellow") {
        Some((255, 255, 224))
    } else if bytes_eq_str(name, "lime") {
        Some((0, 255, 0))
    } else if bytes_eq_str(name, "limegreen") {
        Some((50, 205, 50))
    } else if bytes_eq_str(name, "linen") {
        Some((250, 240, 230))
    } else if bytes_eq_str(name, "magenta") {
        Some((255, 0, 255))
    } else if bytes_eq_str(name, "maroon") {
        Some((128, 0, 0))
    } else if bytes_eq_str(name, "mediumaquamarine") {
        Some((102, 205, 170))
    } else if bytes_eq_str(name, "mediumblue") {
        Some((0, 0, 205))
    } else if bytes_eq_str(name, "mediumorchid") {
        Some((186, 85, 211))
    } else if bytes_eq_str(name, "mediumpurple") {
        Some((147, 112, 219))
    } else if bytes_eq_str(name, "mediumseagreen") {
        Some((60, 179, 113))
    } else if bytes_eq_str(name, "mediumslateblue") {
        Some((123, 104, 238))
    } else if bytes_eq_str(name, "mediumspringgreen") {
        Some((0, 250, 154))
    } else if bytes_eq_str(name, "mediumturquoise") {
        Some((72, 209, 204))
    } else if bytes_eq_str(name, "mediumvioletred") {
        Some((199, 21, 133))
    } else if bytes_eq_str(name, "midnightblue") {
        Some((25, 25, 112))
    } else if bytes_eq_str(name, "mintcream") {
        Some((245, 255, 250))
    } else if bytes_eq_str(name, "mistyrose") {
        Some((255, 228, 225))
    } else if bytes_eq_str(name, "moccasin") {
        Some((255, 228, 181))
    } else if bytes_eq_str(name, "navajowhite") {
        Some((255, 222, 173))
    } else if bytes_eq_str(name, "navy") {
        Some((0, 0, 128))
    } else if bytes_eq_str(name, "oldlace") {
        Some((253, 245, 230))
    } else if bytes_eq_str(name, "olive") {
        Some((128, 128, 0))
    } else if bytes_eq_str(name, "olivedrab") {
        Some((107, 142, 35))
    } else if bytes_eq_str(name, "orange") {
        Some((255, 165, 0))
    } else if bytes_eq_str(name, "orangered") {
        Some((255, 69, 0))
    } else if bytes_eq_str(name, "orchid") {
        Some((218, 112, 214))
    } else if bytes_eq_str(name, "palegoldenrod") {
        Some((238, 232, 170))
    } else if bytes_eq_str(name, "palegreen") {
        Some((152, 251, 152))
    } else if bytes_eq_str(name, "paleturquoise") {
        Some((175, 238, 238))
    } else if bytes_eq_str(name, "palevioletred") {
        Some((219, 112, 147))
    } else if bytes_eq_str(name, "papayawhip") {
        Some((255, 239, 213))
    } else if bytes_eq_str(name, "peachpuff") {
        Some((255, 218, 185))
    } else if bytes_eq_str(name, "peru") {
        Some((205, 133, 63))
    } else if bytes_eq_str(name, "pink") {
        Some((255, 192, 203))
    } else if bytes_eq_str(name, "plum") {
        Some((221, 160, 221))
    } else if bytes_eq_str(name, "powderblue") {
        Some((176, 224, 230))
    } else if bytes_eq_str(name, "purple") {
        Some((128, 0, 128))
    } else if bytes_eq_str(name, "rebeccapurple") {
        Some((102, 51, 153))
    } else if bytes_eq_str(name, "red") {
        Some((255, 0, 0))
    } else if bytes_eq_str(name, "rosybrown") {
        Some((188, 143, 143))
    } else if bytes_eq_str(name, "royalblue") {
        Some((65, 105, 225))
    } else if bytes_eq_str(name, "saddlebrown") {
        Some((139, 69, 19))
    } else if bytes_eq_str(name, "salmon") {
        Some((250, 128, 114))
    } else if bytes_eq_str(name, "sandybrown") {
        Some((244, 164, 96))
    } else if bytes_eq_str(name, "seagreen") {
        Some((46, 139, 87))
    } else if bytes_eq_str(name, "seashell") {
        Some((255, 245, 238))
    } else if bytes_eq_str(name, "sienna") {
        Some((160, 82, 45))
    } else if bytes_eq_str(name, "silver") {
        Some((192, 192, 192))
    } else if bytes_eq_str(name, "skyblue") {
        Some((135, 206, 235))
    } else if bytes_eq_str(name, "slateblue") {
        Some((106, 90, 205))
    } else if bytes_eq_str(name, "slategray") {
        Some((112, 128, 144))
    } else if bytes_eq_str(name, "slategrey") {
        Some((112, 128, 144))
    } else if bytes_eq_str(name, "snow") {
        Some((255, 250, 250))
    } else if bytes_eq_str(name, "springgreen") {
        Some((0, 255, 127))
    } else if bytes_eq_str(name, "steelblue") {
        Some((70, 130, 180))
    } else if bytes_eq_str(name, "tan") {
        Some((210, 180, 140))
    } else if bytes_eq_str(name, "teal") {
        Some((0, 128, 128))
    } else if bytes_eq_str(name, "thistle") {
        Some((216, 191, 216))
    } else if bytes_eq_str(name, "tomato") {
        Some((255, 99, 71))
    } else if bytes_eq_str(name, "turquoise") {
        Some((64, 224, 208))
    } else if bytes_eq_str(name, "violet") {
        Some((238, 130, 238))
    } else if bytes_eq_str(name, "wheat") {
        Some((245, 222, 179))
    } else if bytes_eq_str(name, "white") {
        Some((255, 255, 255))
    } else if bytes_eq_str(name, "whitesmoke") {
        Some((245, 245, 245))
    } else if bytes_eq_str(name, "yellow") {
        Some((255, 255, 0))
    } else if bytes_eq_str(name, "yellowgreen") {
        Some((154, 205, 50))
    } else {
        None
    }
}

} // verus!
