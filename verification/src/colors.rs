//! The named color table: a static, read-only, case-insensitive mapping
//! from color keyword to 6-hex-digit RGB value (no leading `#`), covering
//! the extended X11/SVG palette plus enumerated gray shades.  The table is
//! a bit-exact external data contract: a handful of idiosyncratic shorthand
//! entries (a bare "light", "medium" or "pale" keyword, for example) are
//! not standard color names but are preserved verbatim, since existing
//! consumers may depend on them.

use vstd::prelude::*;
use crate::flat::lemma_skip_step;
use crate::strutil::{str_eq, to_ascii_upper, upper_char, upper_seq};

verus! {

pub open spec fn color_entries_0() -> Seq<(Seq<char>, Seq<char>)> {
    seq![
        ("aliceblue"@, "f0f8ff"@),
        ("antiquewhite"@, "faebd7"@),
        ("antiquewhite1"@, "ffefdb"@),
        ("antiquewhite2"@, "eedfcc"@),
        ("antiquewhite3"@, "cdc0b0"@),
        ("antiquewhite4"@, "8b8378"@),
        ("aqua"@, "00ffff"@),
        ("aquamarine1"@, "7fffd4"@),
        ("aquamarine2"@, "76eec6"@),
        ("aquamarine4"@, "458b74"@),
        ("azure1"@, "f0ffff"@),
        ("azure2"@, "e0eeee"@),
        ("azure3"@, "c1cdcd"@),
        ("azure4"@, "838b8b"@),
        ("beige"@, "f5f5dc"@),
        ("bisque1"@, "ffe4c4"@),
        ("bisque2"@, "eed5b7"@),
        ("bisque3"@, "cdb79e"@),
        ("bisque4"@, "8b7d6b"@),
        ("black"@, "000000"@),
        ("blanchedalmond"@, "ffebcd"@),
        ("blue"@, "0000ff"@),
        ("blue1"@, "0000ff"@),
        ("blue2"@, "0000ee"@),
        ("blue4"@, "00008b"@),
        ("blueviolet"@, "8a2be2"@),
        ("brown"@, "a52a2a"@),
        ("brown1"@, "ff4040"@),
        ("brown2"@, "ee3b3b"@),
        ("brown3"@, "cd3333"@),
        ("brown4"@, "8b2323"@),
        ("burlywood"@, "deb887"@),
        ("burlywood1"@, "ffd39b"@),
        ("burlywood2"@, "eec591"@),
        ("burlywood3"@, "cdaa7d"@),
        ("burlywood4"@, "8b7355"@),
        ("cadetblue"@, "5f9ea0"@),
        ("cadetblue1"@, "98f5ff"@),
        ("cadetblue2"@, "8ee5ee"@),
        ("cadetblue3"@, "7ac5cd"@),
    ]
}

pub open spec fn color_entries_1() -> Seq<(Seq<char>, Seq<char>)> {
    seq![
        ("cadetblue4"@, "53868b"@),
        ("chartreuse1"@, "7fff00"@),
        ("chartreuse2"@, "76ee00"@),
        ("chartreuse3"@, "66cd00"@),
        ("chartreuse4"@, "458b00"@),
        ("chocolate"@, "d2691e"@),
        ("chocolate1"@, "ff7f24"@),
        ("chocolate2"@, "ee7621"@),
        ("chocolate3"@, "cd661d"@),
        ("coral"@, "ff7f50"@),
        ("coral1"@, "ff7256"@),
        ("coral2"@, "ee6a50"@),
        ("coral3"@, "cd5b45"@),
        ("coral4"@, "8b3e2f"@),
        ("cornflowerblue"@, "6495ed"@),
        ("cornsilk1"@, "fff8dc"@),
        ("cornsilk2"@, "eee8cd"@),
        ("cornsilk3"@, "cdc8b1"@),
        ("cornsilk4"@, "8b8878"@),
        ("cyan1"@, "00ffff"@),
        ("cyan2"@, "00eeee"@),
        ("cyan3"@, "00cdcd"@),
        ("cyan4"@, "008b8b"@),
        ("darkgoldenrod"@, "b8860b"@),
        ("darkgoldenrod1"@, "ffb90f"@),
        ("darkgoldenrod2"@, "eead0e"@),
        ("darkgoldenrod3"@, "cd950c"@),
        ("darkgoldenrod4"@, "8b6508"@),
        ("darkgreen"@, "006400"@),
        ("darkkhaki"@, "bdb76b"@),
        ("darkolivegreen"@, "556b2f"@),
        ("darkolivegreen1"@, "caff70"@),
        ("darkolivegreen2"@, "bcee68"@),
        ("darkolivegreen3"@, "a2cd5a"@),
        ("darkolivegreen4"@, "6e8b3d"@),
        ("darkorange"@, "ff8c00"@),
        ("darkorange1"@, "ff7f00"@),
        ("darkorange2"@, "ee7600"@),
        ("darkorange3"@, "cd6600"@),
        ("darkorange4"@, "8b4500"@),
    ]
}

pub open spec fn color_entries_2() -> Seq<(Seq<char>, Seq<char>)> {
    seq![
        ("darkorchid"@, "9932cc"@),
        ("darkorchid1"@, "bf3eff"@),
        ("darkorchid2"@, "b23aee"@),
        ("darkorchid3"@, "9a32cd"@),
        ("darkorchid4"@, "68228b"@),
        ("darksalmon"@, "e9967a"@),
        ("darkseagreen"@, "8fbc8f"@),
        ("darkseagreen1"@, "c1ffc1"@),
        ("darkseagreen2"@, "b4eeb4"@),
        ("darkseagreen3"@, "9bcd9b"@),
        ("darkseagreen4"@, "698b69"@),
        ("darkslateblue"@, "483d8b"@),
        ("darkslategray"@, "2f4f4f"@),
        ("darkslategray1"@, "97ffff"@),
        ("darkslategray2"@, "8deeee"@),
        ("darkslategray3"@, "79cdcd"@),
        ("darkslategray4"@, "528b8b"@),
        ("darkturquoise"@, "00ced1"@),
        ("darkviolet"@, "9400d3"@),
        ("deeppink1"@, "ff1493"@),
        ("deeppink2"@, "ee1289"@),
        ("deeppink3"@, "cd1076"@),
        ("deeppink4"@, "8b0a50"@),
        ("deepskyblue1"@, "00bfff"@),
        ("deepskyblue2"@, "00b2ee"@),
        ("deepskyblue3"@, "009acd"@),
        ("deepskyblue4"@, "00688b"@),
        ("dimgray"@, "696969"@),
        ("dodgerblue1"@, "1e90ff"@),
        ("dodgerblue2"@, "1c86ee"@),
        ("dodgerblue3"@, "1874cd"@),
        ("dodgerblue4"@, "104e8b"@),
        ("firebrick"@, "b22222"@),
        ("firebrick1"@, "ff3030"@),
        ("firebrick2"@, "ee2c2c"@),
        ("firebrick3"@, "cd2626"@),
        ("firebrick4"@, "8b1a1a"@),
        ("floralwhite"@, "fffaf0"@),
        ("forestgreen"@, "228b22"@),
        ("fuchsia"@, "ff00ff"@),
    ]
}

pub open spec fn color_entries_3() -> Seq<(Seq<char>, Seq<char>)> {
    seq![
        ("gainsboro"@, "dcdcdc"@),
        ("ghostwhite"@, "f8f8ff"@),
        ("gold1"@, "ffd700"@),
        ("gold2"@, "eec900"@),
        ("gold3"@, "cdad00"@),
        ("gold4"@, "8b7500"@),
        ("goldenrod"@, "daa520"@),
        ("goldenrod1"@, "ffc125"@),
        ("goldenrod2"@, "eeb422"@),
        ("goldenrod3"@, "cd9b1d"@),
        ("goldenrod4"@, "8b6914"@),
        ("gray"@, "bebebe"@),
        ("gray1"@, "030303"@),
        ("gray10"@, "1a1a1a"@),
        ("gray11"@, "1c1c1c"@),
        ("gray12"@, "1f1f1f"@),
        ("gray13"@, "212121"@),
        ("gray14"@, "242424"@),
        ("gray15"@, "262626"@),
        ("gray16"@, "292929"@),
        ("gray17"@, "2b2b2b"@),
        ("gray18"@, "2e2e2e"@),
        ("gray19"@, "303030"@),
        ("gray2"@, "050505"@),
        ("gray20"@, "333333"@),
        ("gray21"@, "363636"@),
        ("gray22"@, "383838"@),
        ("gray23"@, "3b3b3b"@),
        ("gray24"@, "3d3d3d"@),
        ("gray25"@, "404040"@),
        ("gray26"@, "424242"@),
        ("gray27"@, "454545"@),
        ("gray28"@, "474747"@),
        ("gray29"@, "4a4a4a"@),
        ("gray3"@, "080808"@),
        ("gray30"@, "4d4d4d"@),
        ("gray31"@, "4f4f4f"@),
        ("gray32"@, "525252"@),
        ("gray33"@, "545454"@),
        ("gray34"@, "575757"@),
    ]
}

pub open spec fn color_entries_4() -> Seq<(Seq<char>, Seq<char>)> {
    seq![
        ("gray35"@, "595959"@),
        ("gray36"@, "5c5c5c"@),
        ("gray37"@, "5e5e5e"@),
        ("gray38"@, "616161"@),
        ("gray39"@, "636363"@),
        ("gray4"@, "0a0a0a"@),
        ("gray40"@, "666666"@),
        ("gray41"@, "696969"@),
        ("gray42"@, "6b6b6b"@),
        ("gray43"@, "6e6e6e"@),
        ("gray44"@, "707070"@),
        ("gray45"@, "737373"@),
        ("gray46"@, "757575"@),
        ("gray47"@, "787878"@),
        ("gray48"@, "7a7a7a"@),
        ("gray49"@, "7d7d7d"@),
        ("gray5"@, "0d0d0d"@),
        ("gray50"@, "7f7f7f"@),
        ("gray51"@, "828282"@),
        ("gray52"@, "858585"@),
        ("gray53"@, "878787"@),
        ("gray54"@, "8a8a8a"@),
        ("gray55"@, "8c8c8c"@),
        ("gray56"@, "8f8f8f"@),
        ("gray57"@, "919191"@),
        ("gray58"@, "949494"@),
        ("gray59"@, "969696"@),
        ("gray6"@, "0f0f0f"@),
        ("gray60"@, "999999"@),
        ("gray61"@, "9c9c9c"@),
        ("gray62"@, "9e9e9e"@),
        ("gray63"@, "a1a1a1"@),
        ("gray64"@, "a3a3a3"@),
        ("gray65"@, "a6a6a6"@),
        ("gray66"@, "a8a8a8"@),
        ("gray67"@, "ababab"@),
        ("gray68"@, "adadad"@),
        ("gray69"@, "b0b0b0"@),
        ("gray7"@, "121212"@),
        ("gray70"@, "b3b3b3"@),
    ]
}

pub open spec fn color_entries_5() -> Seq<(Seq<char>, Seq<char>)> {
    seq![
        ("gray71"@, "b5b5b5"@),
        ("gray72"@, "b8b8b8"@),
        ("gray73"@, "bababa"@),
        ("gray74"@, "bdbdbd"@),
        ("gray75"@, "bfbfbf"@),
        ("gray76"@, "c2c2c2"@),
        ("gray77"@, "c4c4c4"@),
        ("gray78"@, "c7c7c7"@),
        ("gray79"@, "c9c9c9"@),
        ("gray8"@, "141414"@),
        ("gray80"@, "cccccc"@),
        ("gray81"@, "cfcfcf"@),
        ("gray82"@, "d1d1d1"@),
        ("gray83"@, "d4d4d4"@),
        ("gray84"@, "d6d6d6"@),
        ("gray85"@, "d9d9d9"@),
        ("gray86"@, "dbdbdb"@),
        ("gray87"@, "dedede"@),
        ("gray88"@, "e0e0e0"@),
        ("gray89"@, "e3e3e3"@),
        ("gray9"@, "171717"@),
        ("gray90"@, "e5e5e5"@),
        ("gray91"@, "e8e8e8"@),
        ("gray92"@, "ebebeb"@),
        ("gray93"@, "ededed"@),
        ("gray94"@, "f0f0f0"@),
        ("gray95"@, "f2f2f2"@),
        ("gray97"@, "f7f7f7"@),
        ("gray98"@, "fafafa"@),
        ("gray99"@, "fcfcfc"@),
        ("green"@, "00ff00"@),
        ("green1"@, "00ff00"@),
        ("green2"@, "00ee00"@),
        ("green3"@, "00cd00"@),
        ("green4"@, "008b00"@),
        ("greenyellow"@, "adff2f"@),
        ("honeydew1"@, "f0fff0"@),
        ("honeydew2"@, "e0eee0"@),
        ("honeydew3"@, "c1cdc1"@),
        ("honeydew4"@, "838b83"@),
    ]
}

pub open spec fn color_entries_6() -> Seq<(Seq<char>, Seq<char>)> {
    seq![
        ("hotpink"@, "ff69b4"@),
        ("hotpink1"@, "ff6eb4"@),
        ("hotpink2"@, "ee6aa7"@),
        ("hotpink3"@, "cd6090"@),
        ("hotpink4"@, "8b3a62"@),
        ("indianred"@, "cd5c5c"@),
        ("indianred1"@, "ff6a6a"@),
        ("indianred2"@, "ee6363"@),
        ("indianred3"@, "cd5555"@),
        ("indianred4"@, "8b3a3a"@),
        ("ivory1"@, "fffff0"@),
        ("ivory2"@, "eeeee0"@),
        ("ivory3"@, "cdcdc1"@),
        ("ivory4"@, "8b8b83"@),
        ("khaki"@, "f0e68c"@),
        ("khaki1"@, "fff68f"@),
        ("khaki2"@, "eee685"@),
        ("khaki3"@, "cdc673"@),
        ("khaki4"@, "8b864e"@),
        ("lavender"@, "e6e6fa"@),
        ("lavenderblush1"@, "fff0f5"@),
        ("lavenderblush2"@, "eee0e5"@),
        ("lavenderblush3"@, "cdc1c5"@),
        ("lavenderblush4"@, "8b8386"@),
        ("lawngreen"@, "7cfc00"@),
        ("lemonchiffon1"@, "fffacd"@),
        ("lemonchiffon2"@, "eee9bf"@),
        ("lemonchiffon3"@, "cdc9a5"@),
        ("lemonchiffon4"@, "8b8970"@),
        ("light"@, "eedd82"@),
        ("lightblue"@, "add8e6"@),
        ("lightblue1"@, "bfefff"@),
        ("lightblue2"@, "b2dfee"@),
        ("lightblue3"@, "9ac0cd"@),
        ("lightblue4"@, "68838b"@),
        ("lightcoral"@, "f08080"@),
        ("lightcyan1"@, "e0ffff"@),
        ("lightcyan2"@, "d1eeee"@),
        ("lightcyan3"@, "b4cdcd"@),
        ("lightcyan4"@, "7a8b8b"@),
    ]
}

pub open spec fn color_entries_7() -> Seq<(Seq<char>, Seq<char>)> {
    seq![
        ("lightgoldenrod1"@, "ffec8b"@),
        ("lightgoldenrod2"@, "eedc82"@),
        ("lightgoldenrod3"@, "cdbe70"@),
        ("lightgoldenrod4"@, "8b814c"@),
        ("lightgoldenrodyellow"@, "fafad2"@),
        ("lightgray"@, "d3d3d3"@),
        ("lightpink"@, "ffb6c1"@),
        ("lightpink1"@, "ffaeb9"@),
        ("lightpink2"@, "eea2ad"@),
        ("lightpink3"@, "cd8c95"@),
        ("lightpink4"@, "8b5f65"@),
        ("lightsalmon1"@, "ffa07a"@),
        ("lightsalmon2"@, "ee9572"@),
        ("lightsalmon3"@, "cd8162"@),
        ("lightsalmon4"@, "8b5742"@),
        ("lightseagreen"@, "20b2aa"@),
        ("lightskyblue"@, "87cefa"@),
        ("lightskyblue1"@, "b0e2ff"@),
        ("lightskyblue2"@, "a4d3ee"@),
        ("lightskyblue3"@, "8db6cd"@),
        ("lightskyblue4"@, "607b8b"@),
        ("lightslateblue"@, "8470ff"@),
        ("lightslategray"@, "778899"@),
        ("lightsteelblue"@, "b0c4de"@),
        ("lightsteelblue1"@, "cae1ff"@),
        ("lightsteelblue2"@, "bcd2ee"@),
        ("lightsteelblue3"@, "a2b5cd"@),
        ("lightsteelblue4"@, "6e7b8b"@),
        ("lightyellow1"@, "ffffe0"@),
        ("lightyellow2"@, "eeeed1"@),
        ("lightyellow3"@, "cdcdb4"@),
        ("lightyellow4"@, "8b8b7a"@),
        ("lime"@, "00ff00"@),
        ("limegreen"@, "32cd32"@),
        ("linen"@, "faf0e6"@),
        ("magenta"@, "ff00ff"@),
        ("magenta2"@, "ee00ee"@),
        ("magenta3"@, "cd00cd"@),
        ("magenta4"@, "8b008b"@),
        ("maroon"@, "b03060"@),
    ]
}

pub open spec fn color_entries_8() -> Seq<(Seq<char>, Seq<char>)> {
    seq![
        ("maroon1"@, "ff34b3"@),
        ("maroon2"@, "ee30a7"@),
        ("maroon3"@, "cd2990"@),
        ("maroon4"@, "8b1c62"@),
        ("medium"@, "66cdaa"@),
        ("mediumaquamarine"@, "66cdaa"@),
        ("mediumblue"@, "0000cd"@),
        ("mediumorchid"@, "ba55d3"@),
        ("mediumorchid1"@, "e066ff"@),
        ("mediumorchid2"@, "d15fee"@),
        ("mediumorchid3"@, "b452cd"@),
        ("mediumorchid4"@, "7a378b"@),
        ("mediumpurple"@, "9370db"@),
        ("mediumpurple1"@, "ab82ff"@),
        ("mediumpurple2"@, "9f79ee"@),
        ("mediumpurple3"@, "8968cd"@),
        ("mediumpurple4"@, "5d478b"@),
        ("mediumseagreen"@, "3cb371"@),
        ("mediumslateblue"@, "7b68ee"@),
        ("mediumspringgreen"@, "00fa9a"@),
        ("mediumturquoise"@, "48d1cc"@),
        ("mediumvioletred"@, "c71585"@),
        ("midnightblue"@, "191970"@),
        ("mintcream"@, "f5fffa"@),
        ("mistyrose1"@, "ffe4e1"@),
        ("mistyrose2"@, "eed5d2"@),
        ("mistyrose3"@, "cdb7b5"@),
        ("mistyrose4"@, "8b7d7b"@),
        ("moccasin"@, "ffe4b5"@),
        ("navajowhite1"@, "ffdead"@),
        ("navajowhite2"@, "eecfa1"@),
        ("navajowhite3"@, "cdb38b"@),
        ("navajowhite4"@, "8b795e"@),
        ("navy"@, "000080"@),
        ("navyblue"@, "000080"@),
        ("oldlace"@, "fdf5e6"@),
        ("olive"@, "808000"@),
        ("olivedrab"@, "6b8e23"@),
        ("olivedrab1"@, "c0ff3e"@),
        ("olivedrab2"@, "b3ee3a"@),
    ]
}

pub open spec fn color_entries_9() -> Seq<(Seq<char>, Seq<char>)> {
    seq![
        ("olivedrab4"@, "698b22"@),
        ("orange"@, "ffa500"@),
        ("orange1"@, "ffa500"@),
        ("orange2"@, "ee9a00"@),
        ("orange3"@, "cd8500"@),
        ("orange4"@, "8b5a00"@),
        ("orangered1"@, "ff4500"@),
        ("orangered2"@, "ee4000"@),
        ("orangered3"@, "cd3700"@),
        ("orangered4"@, "8b2500"@),
        ("orchid"@, "da70d6"@),
        ("orchid1"@, "ff83fa"@),
        ("orchid2"@, "ee7ae9"@),
        ("orchid3"@, "cd69c9"@),
        ("orchid4"@, "8b4789"@),
        ("pale"@, "db7093"@),
        ("palegoldenrod"@, "eee8aa"@),
        ("palegreen"@, "98fb98"@),
        ("palegreen1"@, "9aff9a"@),
        ("palegreen2"@, "90ee90"@),
        ("palegreen3"@, "7ccd7c"@),
        ("palegreen4"@, "548b54"@),
        ("paleturquoise"@, "afeeee"@),
        ("paleturquoise1"@, "bbffff"@),
        ("paleturquoise2"@, "aeeeee"@),
        ("paleturquoise3"@, "96cdcd"@),
        ("paleturquoise4"@, "668b8b"@),
        ("palevioletred"@, "db7093"@),
        ("palevioletred1"@, "ff82ab"@),
        ("palevioletred2"@, "ee799f"@),
        ("palevioletred3"@, "cd6889"@),
        ("palevioletred4"@, "8b475d"@),
        ("papayawhip"@, "ffefd5"@),
        ("peachpuff1"@, "ffdab9"@),
        ("peachpuff2"@, "eecbad"@),
        ("peachpuff3"@, "cdaf95"@),
        ("peachpuff4"@, "8b7765"@),
        ("pink"@, "ffc0cb"@),
        ("pink1"@, "ffb5c5"@),
        ("pink2"@, "eea9b8"@),
    ]
}

pub open spec fn color_entries_10() -> Seq<(Seq<char>, Seq<char>)> {
    seq![
        ("pink3"@, "cd919e"@),
        ("pink4"@, "8b636c"@),
        ("plum"@, "dda0dd"@),
        ("plum1"@, "ffbbff"@),
        ("plum2"@, "eeaeee"@),
        ("plum3"@, "cd96cd"@),
        ("plum4"@, "8b668b"@),
        ("powderblue"@, "b0e0e6"@),
        ("purple"@, "a020f0"@),
        ("rebeccapurple"@, "663399"@),
        ("purple1"@, "9b30ff"@),
        ("purple2"@, "912cee"@),
        ("purple3"@, "7d26cd"@),
        ("purple4"@, "551a8b"@),
        ("red"@, "ff0000"@),
        ("red1"@, "ff0000"@),
        ("red2"@, "ee0000"@),
        ("red3"@, "cd0000"@),
        ("red4"@, "8b0000"@),
        ("rosybrown"@, "bc8f8f"@),
        ("rosybrown1"@, "ffc1c1"@),
        ("rosybrown2"@, "eeb4b4"@),
        ("rosybrown3"@, "cd9b9b"@),
        ("rosybrown4"@, "8b6969"@),
        ("royalblue"@, "4169e1"@),
        ("royalblue1"@, "4876ff"@),
        ("royalblue2"@, "436eee"@),
        ("royalblue3"@, "3a5fcd"@),
        ("royalblue4"@, "27408b"@),
        ("saddlebrown"@, "8b4513"@),
        ("salmon"@, "fa8072"@),
        ("salmon1"@, "ff8c69"@),
        ("salmon2"@, "ee8262"@),
        ("salmon3"@, "cd7054"@),
        ("salmon4"@, "8b4c39"@),
        ("sandybrown"@, "f4a460"@),
        ("seagreen1"@, "54ff9f"@),
        ("seagreen2"@, "4eee94"@),
        ("seagreen3"@, "43cd80"@),
        ("seagreen4"@, "2e8b57"@),
    ]
}

pub open spec fn color_entries_11() -> Seq<(Seq<char>, Seq<char>)> {
    seq![
        ("seashell1"@, "fff5ee"@),
        ("seashell2"@, "eee5de"@),
        ("seashell3"@, "cdc5bf"@),
        ("seashell4"@, "8b8682"@),
        ("sienna"@, "a0522d"@),
        ("sienna1"@, "ff8247"@),
        ("sienna2"@, "ee7942"@),
        ("sienna3"@, "cd6839"@),
        ("sienna4"@, "8b4726"@),
        ("silver"@, "c0c0c0"@),
        ("skyblue"@, "87ceeb"@),
        ("skyblue1"@, "87ceff"@),
        ("skyblue2"@, "7ec0ee"@),
        ("skyblue3"@, "6ca6cd"@),
        ("skyblue4"@, "4a708b"@),
        ("slateblue"@, "6a5acd"@),
        ("slateblue1"@, "836fff"@),
        ("slateblue2"@, "7a67ee"@),
        ("slateblue3"@, "6959cd"@),
        ("slateblue4"@, "473c8b"@),
        ("slategray"@, "708090"@),
        ("slategray1"@, "c6e2ff"@),
        ("slategray2"@, "b9d3ee"@),
        ("slategray3"@, "9fb6cd"@),
        ("slategray4"@, "6c7b8b"@),
        ("snow1"@, "fffafa"@),
        ("snow2"@, "eee9e9"@),
        ("snow3"@, "cdc9c9"@),
        ("snow4"@, "8b8989"@),
        ("springgreen1"@, "00ff7f"@),
        ("springgreen2"@, "00ee76"@),
        ("springgreen3"@, "00cd66"@),
        ("springgreen4"@, "008b45"@),
        ("steelblue"@, "4682b4"@),
        ("steelblue1"@, "63b8ff"@),
        ("steelblue2"@, "5cacee"@),
        ("steelblue3"@, "4f94cd"@),
        ("steelblue4"@, "36648b"@),
        ("tan"@, "d2b48c"@),
        ("tan1"@, "ffa54f"@),
    ]
}

pub open spec fn color_entries_12() -> Seq<(Seq<char>, Seq<char>)> {
    seq![
        ("tan2"@, "ee9a49"@),
        ("tan3"@, "cd853f"@),
        ("tan4"@, "8b5a2b"@),
        ("teal"@, "008080"@),
        ("thistle"@, "d8bfd8"@),
        ("thistle1"@, "ffe1ff"@),
        ("thistle2"@, "eed2ee"@),
        ("thistle3"@, "cdb5cd"@),
        ("thistle4"@, "8b7b8b"@),
        ("tomato1"@, "ff6347"@),
        ("tomato2"@, "ee5c42"@),
        ("tomato3"@, "cd4f39"@),
        ("tomato4"@, "8b3626"@),
        ("turquoise"@, "40e0d0"@),
        ("turquoise1"@, "00f5ff"@),
        ("turquoise2"@, "00e5ee"@),
        ("turquoise3"@, "00c5cd"@),
        ("turquoise4"@, "00868b"@),
        ("violet"@, "ee82ee"@),
        ("violetred"@, "d02090"@),
        ("violetred1"@, "ff3e96"@),
        ("violetred2"@, "ee3a8c"@),
        ("violetred3"@, "cd3278"@),
        ("violetred4"@, "8b2252"@),
        ("wheat"@, "f5deb3"@),
        ("wheat1"@, "ffe7ba"@),
        ("wheat2"@, "eed8ae"@),
        ("wheat3"@, "cdba96"@),
        ("wheat4"@, "8b7e66"@),
        ("white"@, "ffffff"@),
        ("whitesmoke"@, "f5f5f5"@),
        ("yellow"@, "ffff00"@),
        ("yellow1"@, "ffff00"@),
        ("yellow2"@, "eeee00"@),
        ("yellow3"@, "cdcd00"@),
        ("yellow4"@, "8b8b00"@),
        ("yellowgreen"@, "9acd32"@),
    ]
}

/// All entries of the named color table, in table order.
pub open spec fn color_entries() -> Seq<(Seq<char>, Seq<char>)> {
    color_entries_0() + color_entries_1() + color_entries_2() + color_entries_3() + color_entries_4() + color_entries_5() + color_entries_6() + color_entries_7() + color_entries_8() + color_entries_9() + color_entries_10() + color_entries_11() + color_entries_12()
}

fn push_colors_0(t: &mut Vec<(&'static str, &'static str)>)
    ensures
        final(t).deep_view() == old(t).deep_view() + color_entries_0(),
{
    t.push(("aliceblue", "f0f8ff"));
    t.push(("antiquewhite", "faebd7"));
    t.push(("antiquewhite1", "ffefdb"));
    t.push(("antiquewhite2", "eedfcc"));
    t.push(("antiquewhite3", "cdc0b0"));
    t.push(("antiquewhite4", "8b8378"));
    t.push(("aqua", "00ffff"));
    t.push(("aquamarine1", "7fffd4"));
    t.push(("aquamarine2", "76eec6"));
    t.push(("aquamarine4", "458b74"));
    t.push(("azure1", "f0ffff"));
    t.push(("azure2", "e0eeee"));
    t.push(("azure3", "c1cdcd"));
    t.push(("azure4", "838b8b"));
    t.push(("beige", "f5f5dc"));
    t.push(("bisque1", "ffe4c4"));
    t.push(("bisque2", "eed5b7"));
    t.push(("bisque3", "cdb79e"));
    t.push(("bisque4", "8b7d6b"));
    t.push(("black", "000000"));
    t.push(("blanchedalmond", "ffebcd"));
    t.push(("blue", "0000ff"));
    t.push(("blue1", "0000ff"));
    t.push(("blue2", "0000ee"));
    t.push(("blue4", "00008b"));
    t.push(("blueviolet", "8a2be2"));
    t.push(("brown", "a52a2a"));
    t.push(("brown1", "ff4040"));
    t.push(("brown2", "ee3b3b"));
    t.push(("brown3", "cd3333"));
    t.push(("brown4", "8b2323"));
    t.push(("burlywood", "deb887"));
    t.push(("burlywood1", "ffd39b"));
    t.push(("burlywood2", "eec591"));
    t.push(("burlywood3", "cdaa7d"));
    t.push(("burlywood4", "8b7355"));
    t.push(("cadetblue", "5f9ea0"));
    t.push(("cadetblue1", "98f5ff"));
    t.push(("cadetblue2", "8ee5ee"));
    t.push(("cadetblue3", "7ac5cd"));
    proof {
        assert(t.deep_view() =~= old(t).deep_view() + color_entries_0());
    }
}

fn push_colors_1(t: &mut Vec<(&'static str, &'static str)>)
    ensures
        final(t).deep_view() == old(t).deep_view() + color_entries_1(),
{
    t.push(("cadetblue4", "53868b"));
    t.push(("chartreuse1", "7fff00"));
    t.push(("chartreuse2", "76ee00"));
    t.push(("chartreuse3", "66cd00"));
    t.push(("chartreuse4", "458b00"));
    t.push(("chocolate", "d2691e"));
    t.push(("chocolate1", "ff7f24"));
    t.push(("chocolate2", "ee7621"));
    t.push(("chocolate3", "cd661d"));
    t.push(("coral", "ff7f50"));
    t.push(("coral1", "ff7256"));
    t.push(("coral2", "ee6a50"));
    t.push(("coral3", "cd5b45"));
    t.push(("coral4", "8b3e2f"));
    t.push(("cornflowerblue", "6495ed"));
    t.push(("cornsilk1", "fff8dc"));
    t.push(("cornsilk2", "eee8cd"));
    t.push(("cornsilk3", "cdc8b1"));
    t.push(("cornsilk4", "8b8878"));
    t.push(("cyan1", "00ffff"));
    t.push(("cyan2", "00eeee"));
    t.push(("cyan3", "00cdcd"));
    t.push(("cyan4", "008b8b"));
    t.push(("darkgoldenrod", "b8860b"));
    t.push(("darkgoldenrod1", "ffb90f"));
    t.push(("darkgoldenrod2", "eead0e"));
    t.push(("darkgoldenrod3", "cd950c"));
    t.push(("darkgoldenrod4", "8b6508"));
    t.push(("darkgreen", "006400"));
    t.push(("darkkhaki", "bdb76b"));
    t.push(("darkolivegreen", "556b2f"));
    t.push(("darkolivegreen1", "caff70"));
    t.push(("darkolivegreen2", "bcee68"));
    t.push(("darkolivegreen3", "a2cd5a"));
    t.push(("darkolivegreen4", "6e8b3d"));
    t.push(("darkorange", "ff8c00"));
    t.push(("darkorange1", "ff7f00"));
    t.push(("darkorange2", "ee7600"));
    t.push(("darkorange3", "cd6600"));
    t.push(("darkorange4", "8b4500"));
    proof {
        assert(t.deep_view() =~= old(t).deep_view() + color_entries_1());
    }
}

fn push_colors_2(t: &mut Vec<(&'static str, &'static str)>)
    ensures
        final(t).deep_view() == old(t).deep_view() + color_entries_2(),
{
    t.push(("darkorchid", "9932cc"));
    t.push(("darkorchid1", "bf3eff"));
    t.push(("darkorchid2", "b23aee"));
    t.push(("darkorchid3", "9a32cd"));
    t.push(("darkorchid4", "68228b"));
    t.push(("darksalmon", "e9967a"));
    t.push(("darkseagreen", "8fbc8f"));
    t.push(("darkseagreen1", "c1ffc1"));
    t.push(("darkseagreen2", "b4eeb4"));
    t.push(("darkseagreen3", "9bcd9b"));
    t.push(("darkseagreen4", "698b69"));
    t.push(("darkslateblue", "483d8b"));
    t.push(("darkslategray", "2f4f4f"));
    t.push(("darkslategray1", "97ffff"));
    t.push(("darkslategray2", "8deeee"));
    t.push(("darkslategray3", "79cdcd"));
    t.push(("darkslategray4", "528b8b"));
    t.push(("darkturquoise", "00ced1"));
    t.push(("darkviolet", "9400d3"));
    t.push(("deeppink1", "ff1493"));
    t.push(("deeppink2", "ee1289"));
    t.push(("deeppink3", "cd1076"));
    t.push(("deeppink4", "8b0a50"));
    t.push(("deepskyblue1", "00bfff"));
    t.push(("deepskyblue2", "00b2ee"));
    t.push(("deepskyblue3", "009acd"));
    t.push(("deepskyblue4", "00688b"));
    t.push(("dimgray", "696969"));
    t.push(("dodgerblue1", "1e90ff"));
    t.push(("dodgerblue2", "1c86ee"));
    t.push(("dodgerblue3", "1874cd"));
    t.push(("dodgerblue4", "104e8b"));
    t.push(("firebrick", "b22222"));
    t.push(("firebrick1", "ff3030"));
    t.push(("firebrick2", "ee2c2c"));
    t.push(("firebrick3", "cd2626"));
    t.push(("firebrick4", "8b1a1a"));
    t.push(("floralwhite", "fffaf0"));
    t.push(("forestgreen", "228b22"));
    t.push(("fuchsia", "ff00ff"));
    proof {
        assert(t.deep_view() =~= old(t).deep_view() + color_entries_2());
    }
}

fn push_colors_3(t: &mut Vec<(&'static str, &'static str)>)
    ensures
        final(t).deep_view() == old(t).deep_view() + color_entries_3(),
{
    t.push(("gainsboro", "dcdcdc"));
    t.push(("ghostwhite", "f8f8ff"));
    t.push(("gold1", "ffd700"));
    t.push(("gold2", "eec900"));
    t.push(("gold3", "cdad00"));
    t.push(("gold4", "8b7500"));
    t.push(("goldenrod", "daa520"));
    t.push(("goldenrod1", "ffc125"));
    t.push(("goldenrod2", "eeb422"));
    t.push(("goldenrod3", "cd9b1d"));
    t.push(("goldenrod4", "8b6914"));
    t.push(("gray", "bebebe"));
    t.push(("gray1", "030303"));
    t.push(("gray10", "1a1a1a"));
    t.push(("gray11", "1c1c1c"));
    t.push(("gray12", "1f1f1f"));
    t.push(("gray13", "212121"));
    t.push(("gray14", "242424"));
    t.push(("gray15", "262626"));
    t.push(("gray16", "292929"));
    t.push(("gray17", "2b2b2b"));
    t.push(("gray18", "2e2e2e"));
    t.push(("gray19", "303030"));
    t.push(("gray2", "050505"));
    t.push(("gray20", "333333"));
    t.push(("gray21", "363636"));
    t.push(("gray22", "383838"));
    t.push(("gray23", "3b3b3b"));
    t.push(("gray24", "3d3d3d"));
    t.push(("gray25", "404040"));
    t.push(("gray26", "424242"));
    t.push(("gray27", "454545"));
    t.push(("gray28", "474747"));
    t.push(("gray29", "4a4a4a"));
    t.push(("gray3", "080808"));
    t.push(("gray30", "4d4d4d"));
    t.push(("gray31", "4f4f4f"));
    t.push(("gray32", "525252"));
    t.push(("gray33", "545454"));
    t.push(("gray34", "575757"));
    proof {
        assert(t.deep_view() =~= old(t).deep_view() + color_entries_3());
    }
}

fn push_colors_4(t: &mut Vec<(&'static str, &'static str)>)
    ensures
        final(t).deep_view() == old(t).deep_view() + color_entries_4(),
{
    t.push(("gray35", "595959"));
    t.push(("gray36", "5c5c5c"));
    t.push(("gray37", "5e5e5e"));
    t.push(("gray38", "616161"));
    t.push(("gray39", "636363"));
    t.push(("gray4", "0a0a0a"));
    t.push(("gray40", "666666"));
    t.push(("gray41", "696969"));
    t.push(("gray42", "6b6b6b"));
    t.push(("gray43", "6e6e6e"));
    t.push(("gray44", "707070"));
    t.push(("gray45", "737373"));
    t.push(("gray46", "757575"));
    t.push(("gray47", "787878"));
    t.push(("gray48", "7a7a7a"));
    t.push(("gray49", "7d7d7d"));
    t.push(("gray5", "0d0d0d"));
    t.push(("gray50", "7f7f7f"));
    t.push(("gray51", "828282"));
    t.push(("gray52", "858585"));
    t.push(("gray53", "878787"));
    t.push(("gray54", "8a8a8a"));
    t.push(("gray55", "8c8c8c"));
    t.push(("gray56", "8f8f8f"));
    t.push(("gray57", "919191"));
    t.push(("gray58", "949494"));
    t.push(("gray59", "969696"));
    t.push(("gray6", "0f0f0f"));
    t.push(("gray60", "999999"));
    t.push(("gray61", "9c9c9c"));
    t.push(("gray62", "9e9e9e"));
    t.push(("gray63", "a1a1a1"));
    t.push(("gray64", "a3a3a3"));
    t.push(("gray65", "a6a6a6"));
    t.push(("gray66", "a8a8a8"));
    t.push(("gray67", "ababab"));
    t.push(("gray68", "adadad"));
    t.push(("gray69", "b0b0b0"));
    t.push(("gray7", "121212"));
    t.push(("gray70", "b3b3b3"));
    proof {
        assert(t.deep_view() =~= old(t).deep_view() + color_entries_4());
    }
}

fn push_colors_5(t: &mut Vec<(&'static str, &'static str)>)
    ensures
        final(t).deep_view() == old(t).deep_view() + color_entries_5(),
{
    t.push(("gray71", "b5b5b5"));
    t.push(("gray72", "b8b8b8"));
    t.push(("gray73", "bababa"));
    t.push(("gray74", "bdbdbd"));
    t.push(("gray75", "bfbfbf"));
    t.push(("gray76", "c2c2c2"));
    t.push(("gray77", "c4c4c4"));
    t.push(("gray78", "c7c7c7"));
    t.push(("gray79", "c9c9c9"));
    t.push(("gray8", "141414"));
    t.push(("gray80", "cccccc"));
    t.push(("gray81", "cfcfcf"));
    t.push(("gray82", "d1d1d1"));
    t.push(("gray83", "d4d4d4"));
    t.push(("gray84", "d6d6d6"));
    t.push(("gray85", "d9d9d9"));
    t.push(("gray86", "dbdbdb"));
    t.push(("gray87", "dedede"));
    t.push(("gray88", "e0e0e0"));
    t.push(("gray89", "e3e3e3"));
    t.push(("gray9", "171717"));
    t.push(("gray90", "e5e5e5"));
    t.push(("gray91", "e8e8e8"));
    t.push(("gray92", "ebebeb"));
    t.push(("gray93", "ededed"));
    t.push(("gray94", "f0f0f0"));
    t.push(("gray95", "f2f2f2"));
    t.push(("gray97", "f7f7f7"));
    t.push(("gray98", "fafafa"));
    t.push(("gray99", "fcfcfc"));
    t.push(("green", "00ff00"));
    t.push(("green1", "00ff00"));
    t.push(("green2", "00ee00"));
    t.push(("green3", "00cd00"));
    t.push(("green4", "008b00"));
    t.push(("greenyellow", "adff2f"));
    t.push(("honeydew1", "f0fff0"));
    t.push(("honeydew2", "e0eee0"));
    t.push(("honeydew3", "c1cdc1"));
    t.push(("honeydew4", "838b83"));
    proof {
        assert(t.deep_view() =~= old(t).deep_view() + color_entries_5());
    }
}

fn push_colors_6(t: &mut Vec<(&'static str, &'static str)>)
    ensures
        final(t).deep_view() == old(t).deep_view() + color_entries_6(),
{
    t.push(("hotpink", "ff69b4"));
    t.push(("hotpink1", "ff6eb4"));
    t.push(("hotpink2", "ee6aa7"));
    t.push(("hotpink3", "cd6090"));
    t.push(("hotpink4", "8b3a62"));
    t.push(("indianred", "cd5c5c"));
    t.push(("indianred1", "ff6a6a"));
    t.push(("indianred2", "ee6363"));
    t.push(("indianred3", "cd5555"));
    t.push(("indianred4", "8b3a3a"));
    t.push(("ivory1", "fffff0"));
    t.push(("ivory2", "eeeee0"));
    t.push(("ivory3", "cdcdc1"));
    t.push(("ivory4", "8b8b83"));
    t.push(("khaki", "f0e68c"));
    t.push(("khaki1", "fff68f"));
    t.push(("khaki2", "eee685"));
    t.push(("khaki3", "cdc673"));
    t.push(("khaki4", "8b864e"));
    t.push(("lavender", "e6e6fa"));
    t.push(("lavenderblush1", "fff0f5"));
    t.push(("lavenderblush2", "eee0e5"));
    t.push(("lavenderblush3", "cdc1c5"));
    t.push(("lavenderblush4", "8b8386"));
    t.push(("lawngreen", "7cfc00"));
    t.push(("lemonchiffon1", "fffacd"));
    t.push(("lemonchiffon2", "eee9bf"));
    t.push(("lemonchiffon3", "cdc9a5"));
    t.push(("lemonchiffon4", "8b8970"));
    t.push(("light", "eedd82"));
    t.push(("lightblue", "add8e6"));
    t.push(("lightblue1", "bfefff"));
    t.push(("lightblue2", "b2dfee"));
    t.push(("lightblue3", "9ac0cd"));
    t.push(("lightblue4", "68838b"));
    t.push(("lightcoral", "f08080"));
    t.push(("lightcyan1", "e0ffff"));
    t.push(("lightcyan2", "d1eeee"));
    t.push(("lightcyan3", "b4cdcd"));
    t.push(("lightcyan4", "7a8b8b"));
    proof {
        assert(t.deep_view() =~= old(t).deep_view() + color_entries_6());
    }
}

fn push_colors_7(t: &mut Vec<(&'static str, &'static str)>)
    ensures
        final(t).deep_view() == old(t).deep_view() + color_entries_7(),
{
    t.push(("lightgoldenrod1", "ffec8b"));
    t.push(("lightgoldenrod2", "eedc82"));
    t.push(("lightgoldenrod3", "cdbe70"));
    t.push(("lightgoldenrod4", "8b814c"));
    t.push(("lightgoldenrodyellow", "fafad2"));
    t.push(("lightgray", "d3d3d3"));
    t.push(("lightpink", "ffb6c1"));
    t.push(("lightpink1", "ffaeb9"));
    t.push(("lightpink2", "eea2ad"));
    t.push(("lightpink3", "cd8c95"));
    t.push(("lightpink4", "8b5f65"));
    t.push(("lightsalmon1", "ffa07a"));
    t.push(("lightsalmon2", "ee9572"));
    t.push(("lightsalmon3", "cd8162"));
    t.push(("lightsalmon4", "8b5742"));
    t.push(("lightseagreen", "20b2aa"));
    t.push(("lightskyblue", "87cefa"));
    t.push(("lightskyblue1", "b0e2ff"));
    t.push(("lightskyblue2", "a4d3ee"));
    t.push(("lightskyblue3", "8db6cd"));
    t.push(("lightskyblue4", "607b8b"));
    t.push(("lightslateblue", "8470ff"));
    t.push(("lightslategray", "778899"));
    t.push(("lightsteelblue", "b0c4de"));
    t.push(("lightsteelblue1", "cae1ff"));
    t.push(("lightsteelblue2", "bcd2ee"));
    t.push(("lightsteelblue3", "a2b5cd"));
    t.push(("lightsteelblue4", "6e7b8b"));
    t.push(("lightyellow1", "ffffe0"));
    t.push(("lightyellow2", "eeeed1"));
    t.push(("lightyellow3", "cdcdb4"));
    t.push(("lightyellow4", "8b8b7a"));
    t.push(("lime", "00ff00"));
    t.push(("limegreen", "32cd32"));
    t.push(("linen", "faf0e6"));
    t.push(("magenta", "ff00ff"));
    t.push(("magenta2", "ee00ee"));
    t.push(("magenta3", "cd00cd"));
    t.push(("magenta4", "8b008b"));
    t.push(("maroon", "b03060"));
    proof {
        assert(t.deep_view() =~= old(t).deep_view() + color_entries_7());
    }
}

fn push_colors_8(t: &mut Vec<(&'static str, &'static str)>)
    ensures
        final(t).deep_view() == old(t).deep_view() + color_entries_8(),
{
    t.push(("maroon1", "ff34b3"));
    t.push(("maroon2", "ee30a7"));
    t.push(("maroon3", "cd2990"));
    t.push(("maroon4", "8b1c62"));
    t.push(("medium", "66cdaa"));
    t.push(("mediumaquamarine", "66cdaa"));
    t.push(("mediumblue", "0000cd"));
    t.push(("mediumorchid", "ba55d3"));
    t.push(("mediumorchid1", "e066ff"));
    t.push(("mediumorchid2", "d15fee"));
    t.push(("mediumorchid3", "b452cd"));
    t.push(("mediumorchid4", "7a378b"));
    t.push(("mediumpurple", "9370db"));
    t.push(("mediumpurple1", "ab82ff"));
    t.push(("mediumpurple2", "9f79ee"));
    t.push(("mediumpurple3", "8968cd"));
    t.push(("mediumpurple4", "5d478b"));
    t.push(("mediumseagreen", "3cb371"));
    t.push(("mediumslateblue", "7b68ee"));
    t.push(("mediumspringgreen", "00fa9a"));
    t.push(("mediumturquoise", "48d1cc"));
    t.push(("mediumvioletred", "c71585"));
    t.push(("midnightblue", "191970"));
    t.push(("mintcream", "f5fffa"));
    t.push(("mistyrose1", "ffe4e1"));
    t.push(("mistyrose2", "eed5d2"));
    t.push(("mistyrose3", "cdb7b5"));
    t.push(("mistyrose4", "8b7d7b"));
    t.push(("moccasin", "ffe4b5"));
    t.push(("navajowhite1", "ffdead"));
    t.push(("navajowhite2", "eecfa1"));
    t.push(("navajowhite3", "cdb38b"));
    t.push(("navajowhite4", "8b795e"));
    t.push(("navy", "000080"));
    t.push(("navyblue", "000080"));
    t.push(("oldlace", "fdf5e6"));
    t.push(("olive", "808000"));
    t.push(("olivedrab", "6b8e23"));
    t.push(("olivedrab1", "c0ff3e"));
    t.push(("olivedrab2", "b3ee3a"));
    proof {
        assert(t.deep_view() =~= old(t).deep_view() + color_entries_8());
    }
}

fn push_colors_9(t: &mut Vec<(&'static str, &'static str)>)
    ensures
        final(t).deep_view() == old(t).deep_view() + color_entries_9(),
{
    t.push(("olivedrab4", "698b22"));
    t.push(("orange", "ffa500"));
    t.push(("orange1", "ffa500"));
    t.push(("orange2", "ee9a00"));
    t.push(("orange3", "cd8500"));
    t.push(("orange4", "8b5a00"));
    t.push(("orangered1", "ff4500"));
    t.push(("orangered2", "ee4000"));
    t.push(("orangered3", "cd3700"));
    t.push(("orangered4", "8b2500"));
    t.push(("orchid", "da70d6"));
    t.push(("orchid1", "ff83fa"));
    t.push(("orchid2", "ee7ae9"));
    t.push(("orchid3", "cd69c9"));
    t.push(("orchid4", "8b4789"));
    t.push(("pale", "db7093"));
    t.push(("palegoldenrod", "eee8aa"));
    t.push(("palegreen", "98fb98"));
    t.push(("palegreen1", "9aff9a"));
    t.push(("palegreen2", "90ee90"));
    t.push(("palegreen3", "7ccd7c"));
    t.push(("palegreen4", "548b54"));
    t.push(("paleturquoise", "afeeee"));
    t.push(("paleturquoise1", "bbffff"));
    t.push(("paleturquoise2", "aeeeee"));
    t.push(("paleturquoise3", "96cdcd"));
    t.push(("paleturquoise4", "668b8b"));
    t.push(("palevioletred", "db7093"));
    t.push(("palevioletred1", "ff82ab"));
    t.push(("palevioletred2", "ee799f"));
    t.push(("palevioletred3", "cd6889"));
    t.push(("palevioletred4", "8b475d"));
    t.push(("papayawhip", "ffefd5"));
    t.push(("peachpuff1", "ffdab9"));
    t.push(("peachpuff2", "eecbad"));
    t.push(("peachpuff3", "cdaf95"));
    t.push(("peachpuff4", "8b7765"));
    t.push(("pink", "ffc0cb"));
    t.push(("pink1", "ffb5c5"));
    t.push(("pink2", "eea9b8"));
    proof {
        assert(t.deep_view() =~= old(t).deep_view() + color_entries_9());
    }
}

fn push_colors_10(t: &mut Vec<(&'static str, &'static str)>)
    ensures
        final(t).deep_view() == old(t).deep_view() + color_entries_10(),
{
    t.push(("pink3", "cd919e"));
    t.push(("pink4", "8b636c"));
    t.push(("plum", "dda0dd"));
    t.push(("plum1", "ffbbff"));
    t.push(("plum2", "eeaeee"));
    t.push(("plum3", "cd96cd"));
    t.push(("plum4", "8b668b"));
    t.push(("powderblue", "b0e0e6"));
    t.push(("purple", "a020f0"));
    t.push(("rebeccapurple", "663399"));
    t.push(("purple1", "9b30ff"));
    t.push(("purple2", "912cee"));
    t.push(("purple3", "7d26cd"));
    t.push(("purple4", "551a8b"));
    t.push(("red", "ff0000"));
    t.push(("red1", "ff0000"));
    t.push(("red2", "ee0000"));
    t.push(("red3", "cd0000"));
    t.push(("red4", "8b0000"));
    t.push(("rosybrown", "bc8f8f"));
    t.push(("rosybrown1", "ffc1c1"));
    t.push(("rosybrown2", "eeb4b4"));
    t.push(("rosybrown3", "cd9b9b"));
    t.push(("rosybrown4", "8b6969"));
    t.push(("royalblue", "4169e1"));
    t.push(("royalblue1", "4876ff"));
    t.push(("royalblue2", "436eee"));
    t.push(("royalblue3", "3a5fcd"));
    t.push(("royalblue4", "27408b"));
    t.push(("saddlebrown", "8b4513"));
    t.push(("salmon", "fa8072"));
    t.push(("salmon1", "ff8c69"));
    t.push(("salmon2", "ee8262"));
    t.push(("salmon3", "cd7054"));
    t.push(("salmon4", "8b4c39"));
    t.push(("sandybrown", "f4a460"));
    t.push(("seagreen1", "54ff9f"));
    t.push(("seagreen2", "4eee94"));
    t.push(("seagreen3", "43cd80"));
    t.push(("seagreen4", "2e8b57"));
    proof {
        assert(t.deep_view() =~= old(t).deep_view() + color_entries_10());
    }
}

fn push_colors_11(t: &mut Vec<(&'static str, &'static str)>)
    ensures
        final(t).deep_view() == old(t).deep_view() + color_entries_11(),
{
    t.push(("seashell1", "fff5ee"));
    t.push(("seashell2", "eee5de"));
    t.push(("seashell3", "cdc5bf"));
    t.push(("seashell4", "8b8682"));
    t.push(("sienna", "a0522d"));
    t.push(("sienna1", "ff8247"));
    t.push(("sienna2", "ee7942"));
    t.push(("sienna3", "cd6839"));
    t.push(("sienna4", "8b4726"));
    t.push(("silver", "c0c0c0"));
    t.push(("skyblue", "87ceeb"));
    t.push(("skyblue1", "87ceff"));
    t.push(("skyblue2", "7ec0ee"));
    t.push(("skyblue3", "6ca6cd"));
    t.push(("skyblue4", "4a708b"));
    t.push(("slateblue", "6a5acd"));
    t.push(("slateblue1", "836fff"));
    t.push(("slateblue2", "7a67ee"));
    t.push(("slateblue3", "6959cd"));
    t.push(("slateblue4", "473c8b"));
    t.push(("slategray", "708090"));
    t.push(("slategray1", "c6e2ff"));
    t.push(("slategray2", "b9d3ee"));
    t.push(("slategray3", "9fb6cd"));
    t.push(("slategray4", "6c7b8b"));
    t.push(("snow1", "fffafa"));
    t.push(("snow2", "eee9e9"));
    t.push(("snow3", "cdc9c9"));
    t.push(("snow4", "8b8989"));
    t.push(("springgreen1", "00ff7f"));
    t.push(("springgreen2", "00ee76"));
    t.push(("springgreen3", "00cd66"));
    t.push(("springgreen4", "008b45"));
    t.push(("steelblue", "4682b4"));
    t.push(("steelblue1", "63b8ff"));
    t.push(("steelblue2", "5cacee"));
    t.push(("steelblue3", "4f94cd"));
    t.push(("steelblue4", "36648b"));
    t.push(("tan", "d2b48c"));
    t.push(("tan1", "ffa54f"));
    proof {
        assert(t.deep_view() =~= old(t).deep_view() + color_entries_11());
    }
}

fn push_colors_12(t: &mut Vec<(&'static str, &'static str)>)
    ensures
        final(t).deep_view() == old(t).deep_view() + color_entries_12(),
{
    t.push(("tan2", "ee9a49"));
    t.push(("tan3", "cd853f"));
    t.push(("tan4", "8b5a2b"));
    t.push(("teal", "008080"));
    t.push(("thistle", "d8bfd8"));
    t.push(("thistle1", "ffe1ff"));
    t.push(("thistle2", "eed2ee"));
    t.push(("thistle3", "cdb5cd"));
    t.push(("thistle4", "8b7b8b"));
    t.push(("tomato1", "ff6347"));
    t.push(("tomato2", "ee5c42"));
    t.push(("tomato3", "cd4f39"));
    t.push(("tomato4", "8b3626"));
    t.push(("turquoise", "40e0d0"));
    t.push(("turquoise1", "00f5ff"));
    t.push(("turquoise2", "00e5ee"));
    t.push(("turquoise3", "00c5cd"));
    t.push(("turquoise4", "00868b"));
    t.push(("violet", "ee82ee"));
    t.push(("violetred", "d02090"));
    t.push(("violetred1", "ff3e96"));
    t.push(("violetred2", "ee3a8c"));
    t.push(("violetred3", "cd3278"));
    t.push(("violetred4", "8b2252"));
    t.push(("wheat", "f5deb3"));
    t.push(("wheat1", "ffe7ba"));
    t.push(("wheat2", "eed8ae"));
    t.push(("wheat3", "cdba96"));
    t.push(("wheat4", "8b7e66"));
    t.push(("white", "ffffff"));
    t.push(("whitesmoke", "f5f5f5"));
    t.push(("yellow", "ffff00"));
    t.push(("yellow1", "ffff00"));
    t.push(("yellow2", "eeee00"));
    t.push(("yellow3", "cdcd00"));
    t.push(("yellow4", "8b8b00"));
    t.push(("yellowgreen", "9acd32"));
    proof {
        assert(t.deep_view() =~= old(t).deep_view() + color_entries_12());
    }
}

/// The named color table as an ordered list of (keyword, hex) pairs.
pub fn color_table() -> (t: Vec<(&'static str, &'static str)>)
    ensures
        t.deep_view() == color_entries(),
{
    let mut t: Vec<(&'static str, &'static str)> = Vec::new();
    proof {
        assert(t.deep_view() =~= Seq::<(Seq<char>, Seq<char>)>::empty());
    }
    push_colors_0(&mut t);
    push_colors_1(&mut t);
    push_colors_2(&mut t);
    push_colors_3(&mut t);
    push_colors_4(&mut t);
    push_colors_5(&mut t);
    push_colors_6(&mut t);
    push_colors_7(&mut t);
    push_colors_8(&mut t);
    push_colors_9(&mut t);
    push_colors_10(&mut t);
    push_colors_11(&mut t);
    push_colors_12(&mut t);
    proof {
        assert(t.deep_view() =~= color_entries());
    }
    t
}

/// First table entry whose upper-cased keyword equals `probe`, yielding the
/// upper-cased hex value; `None` if no entry matches.
pub open spec fn lookup_color(entries: Seq<(Seq<char>, Seq<char>)>, probe: Seq<char>) -> Option<
    Seq<char>,
>
    decreases entries.len(),
{
    if entries.len() == 0 {
        None
    } else if upper_seq(entries[0].0) == probe {
        Some(upper_seq(entries[0].1))
    } else {
        lookup_color(entries.drop_first(), probe)
    }
}

/// Case-insensitive lookup of `probe` in the named color table: the stored
/// keyword and the probe are both normalized to upper case before
/// comparison.
pub open spec fn named_color(probe: Seq<char>) -> Option<Seq<char>> {
    lookup_color(color_entries(), probe)
}

/// One leading `#` stripped from a color token, if present.
pub open spec fn strip_hash(s: Seq<char>) -> Seq<char> {
    if s.len() > 0 && s[0] == '#' {
        s.drop_first()
    } else {
        s
    }
}

/// Resolution of a raw color token: strip one leading `#`, upper-case the
/// remainder, and look it up in the named color table; a known keyword is
/// replaced by its upper-cased hex value, an unknown token passes through
/// unchanged (best-effort, never an error).  Normalization is ASCII-only:
/// every table keyword is ASCII, so lookup is unaffected, but non-ASCII
/// letters in an unknown token pass through in their original case.
pub open spec fn resolve_color_token(s: Seq<char>) -> Seq<char> {
    let probe = upper_seq(strip_hash(s));
    match named_color(probe) {
        Some(v) => v,
        None => probe,
    }
}

/// Looks `probe` (already upper-cased by the caller or not; the comparison
/// normalizes both sides) up in the named color table.
pub fn find_named_color(probe: &str) -> (r: Option<String>)
    ensures
        r.deep_view() == named_color(probe@),
{
    let table = color_table();
    let ghost entries = color_entries();
    proof {
        assert(entries.skip(0) =~= entries);
    }
    let mut i: usize = 0;
    while i < table.len()
        invariant
            i <= table@.len(),
            entries == color_entries(),
            table.deep_view() == entries,
            table@.len() == entries.len(),
            lookup_color(entries.skip(i as int), probe@) == lookup_color(entries, probe@),
        decreases table@.len() - i,
    {
        proof {
            lemma_skip_step(entries, i as int);
            assert(entries[i as int] == table.deep_view()[i as int]);
        }
        let key_up = to_ascii_upper(table[i].0);
        if str_eq(key_up.as_str(), probe) {
            let val_up = to_ascii_upper(table[i].1);
            proof {
                assert(lookup_color(entries.skip(i as int), probe@) == Some(upper_seq(
                    entries[i as int].1,
                )));
                assert(val_up@ == upper_seq(entries[i as int].1));
                assert(lookup_color(entries, probe@) == Some(val_up@));
            }
            return Some(val_up);
        }
        i = i + 1;
    }
    proof {
        assert(entries.skip(entries.len() as int) =~= Seq::<(Seq<char>, Seq<char>)>::empty());
    }
    None
}

/// Resolves a raw color token: strips one leading `#`, upper-cases the
/// remainder (ASCII-only; non-ASCII characters keep their case),
/// substitutes the table's hex value when the token is a known keyword,
/// and otherwise passes the normalized token through unchanged.
pub fn resolve_color(token: &str) -> (r: String)
    ensures
        r@ == resolve_color_token(token@),
{
    let len = token.unicode_len();
    let stripped: &str = if len > 0 && token.get_char(0) == '#' {
        let s = token.substring_char(1, len);
        proof {
            assert(s@ == strip_hash(token@));
        }
        s
    } else {
        token
    };
    let probe = to_ascii_upper(stripped);
    match find_named_color(probe.as_str()) {
        Some(v) => v,
        None => probe,
    }
}

/// A character whose upper case is `#` is `#` itself; more generally, two
/// characters with the same upper case agree on being `#`.
proof fn lemma_upper_char_hash(c: char)
    ensures
        (upper_char(c) == '#') == (c == '#'),
{
}

/// Color resolution is case-insensitive: two tokens that agree up to ASCII
/// case (their upper-cased forms are equal) resolve to the same value.
pub proof fn lemma_color_resolution_case_insensitive(a: Seq<char>, b: Seq<char>)
    requires
        upper_seq(a) == upper_seq(b),
    ensures
        resolve_color_token(a) == resolve_color_token(b),
{
    assert(upper_seq(a).len() == a.len());
    assert(upper_seq(b).len() == b.len());
    if a.len() > 0 {
        assert(upper_seq(a)[0] == upper_char(a[0]));
        assert(upper_seq(b)[0] == upper_char(b[0]));
        lemma_upper_char_hash(a[0]);
        lemma_upper_char_hash(b[0]);
        assert((a[0] == '#') == (b[0] == '#'));
    }
    assert(upper_seq(strip_hash(a)) =~= upper_seq(strip_hash(b))) by {
        if a.len() > 0 && a[0] == '#' {
            assert forall|i: int| 0 <= i < a.len() - 1 implies upper_char(a.drop_first()[i])
                == upper_char(b.drop_first()[i]) by {
                assert(upper_seq(a)[i + 1] == upper_char(a[i + 1]));
                assert(upper_seq(b)[i + 1] == upper_char(b[i + 1]));
            }
        } else {
            assert forall|i: int| 0 <= i < a.len() implies upper_char(a[i]) == upper_char(b[i]) by {
                assert(upper_seq(a)[i] == upper_char(a[i]));
                assert(upper_seq(b)[i] == upper_char(b[i]));
            }
        }
    }
}

} // verus!
