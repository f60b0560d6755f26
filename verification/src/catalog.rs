//! Where the artifacts of the ceremony are published, and how they are named on disk.
//!
//! Places in the catalog are counted from 0. The challenge at place `i` is the one that the
//! ceremony numbers `i + 1`, and the response at place `i` answers it.

use crate::text::{
    decimal, digits_value, field_value, find_byte, parse_u64, push_zero_padded, split_once,
    zero_padded,
};
use vstd::prelude::*;
use vstd::string::{StringExecFns, StringSliceAdditionalSpecFns};
use vstd::utf8::{
    decode_utf8, encode_utf8, encode_utf8_decode_utf8, encode_utf8_valid_utf8, is_char_boundary,
    is_char_boundary_iff_not_is_continuation_byte,
};

verus! {

/// The number of challenges that are published.
pub const CHALLENGES: usize = 72;

/// The number of responses that are published.
pub const RESPONSES: usize = 71;

/// The byte `_`, which ends the name of a participant.
pub const UNDERSCORE: u8 = 0x5f;

/// The address under which every artifact is published.
pub open spec fn base_url() -> Seq<char> {
    "https://ppot.blob.core.windows.net/public/"@
}

/// The address of the challenge at place `index`. The first two are named out of line.
pub open spec fn challenge_url(index: nat) -> Seq<char> {
    if index == 0 {
        base_url() + "challenge_initial"@
    } else if index == 1 {
        base_url() + "challenge_0002_kobi"@
    } else {
        numbered_challenge_url(index + 1)
    }
}

/// The address of the challenge that the ceremony numbers `number`, named in line.
pub open spec fn numbered_challenge_url(number: nat) -> Seq<char> {
    base_url() + "challenge_"@ + zero_padded(number, 4)
}

/// The address of the response at place `index`, up to the name of the participant that ends
/// it.
pub open spec fn response_url_prefix(index: nat) -> Seq<char> {
    base_url() + "response_"@ + zero_padded(index + 1, 4) + "_"@
}

/// The address of the response at place `index`, given by `participant`.
pub open spec fn response_url(index: nat, participant: Seq<char>) -> Seq<char> {
    response_url_prefix(index) + participant
}

/// The participants, in the order of their responses.
pub open spec fn participants() -> Seq<Seq<char>> {
    seq![
        "weijie"@, "kobi"@, "poma"@, "pepesha"@, "amrullah"@, "zac"@, "youssef"@, "mike"@,
        "brecht"@, "vano"@, "zhiniang"@, "daniel"@, "kevin"@, "weijie"@, "anon0"@, "aurel"@,
        "philip"@, "cody"@, "petr"@, "edu"@, "rf"@, "roman"@, "shomari"@, "vb"@, "stefan"@,
        "geoff"@, "alex"@, "dimitris"@, "gustavo"@, "anant"@, "golem"@, "josephc"@, "oskar"@,
        "igor"@, "leonard"@, "stefaan"@, "chihcheng"@, "james"@, "wanseob"@, "weitang"@,
        "evan"@, "vaibhav"@, "albert"@, "yingtong"@, "ben"@, "tkorwin"@, "saravanan"@,
        "tyler"@, "jordi"@, "weijie"@, "joe"@, "zaki"@, "juan"@, "jarrad"@, "tyler"@, "auryn"@,
        "gisli"@, "rasikh"@, "pau"@, "weijie"@, "adria"@, "lev"@, "david"@, "ian"@, "adrian"@,
        "kieran"@, "nick"@, "elena"@, "justice"@, "bertrand"@, "edward"@,
    ]
}

/// The name on disk of the challenge at place `index`.
pub open spec fn challenge_path(index: nat) -> Seq<char> {
    "challenge_"@ + zero_padded(index, 4)
}

/// The name on disk of the response at place `index`.
pub open spec fn response_path(index: nat) -> Seq<char> {
    "response_"@ + zero_padded(index + 1, 4)
}

/// The addresses of the challenges, in order.
pub fn challenge_urls() -> (urls: [&'static str; CHALLENGES])
    ensures
        forall|i: int| 0 <= i < CHALLENGES ==> (#[trigger] urls[i])@ == challenge_url(i as nat),
{
    let urls = [
        "https://ppot.blob.core.windows.net/public/challenge_initial",
        "https://ppot.blob.core.windows.net/public/challenge_0002_kobi",
        "https://ppot.blob.core.windows.net/public/challenge_0003",
        "https://ppot.blob.core.windows.net/public/challenge_0004",
        "https://ppot.blob.core.windows.net/public/challenge_0005",
        "https://ppot.blob.core.windows.net/public/challenge_0006",
        "https://ppot.blob.core.windows.net/public/challenge_0007",
        "https://ppot.blob.core.windows.net/public/challenge_0008",
        "https://ppot.blob.core.windows.net/public/challenge_0009",
        "https://ppot.blob.core.windows.net/public/challenge_0010",
        "https://ppot.blob.core.windows.net/public/challenge_0011",
        "https://ppot.blob.core.windows.net/public/challenge_0012",
        "https://ppot.blob.core.windows.net/public/challenge_0013",
        "https://ppot.blob.core.windows.net/public/challenge_0014",
        "https://ppot.blob.core.windows.net/public/challenge_0015",
        "https://ppot.blob.core.windows.net/public/challenge_0016",
        "https://ppot.blob.core.windows.net/public/challenge_0017",
        "https://ppot.blob.core.windows.net/public/challenge_0018",
        "https://ppot.blob.core.windows.net/public/challenge_0019",
        "https://ppot.blob.core.windows.net/public/challenge_0020",
        "https://ppot.blob.core.windows.net/public/challenge_0021",
        "https://ppot.blob.core.windows.net/public/challenge_0022",
        "https://ppot.blob.core.windows.net/public/challenge_0023",
        "https://ppot.blob.core.windows.net/public/challenge_0024",
        "https://ppot.blob.core.windows.net/public/challenge_0025",
        "https://ppot.blob.core.windows.net/public/challenge_0026",
        "https://ppot.blob.core.windows.net/public/challenge_0027",
        "https://ppot.blob.core.windows.net/public/challenge_0028",
        "https://ppot.blob.core.windows.net/public/challenge_0029",
        "https://ppot.blob.core.windows.net/public/challenge_0030",
        "https://ppot.blob.core.windows.net/public/challenge_0031",
        "https://ppot.blob.core.windows.net/public/challenge_0032",
        "https://ppot.blob.core.windows.net/public/challenge_0033",
        "https://ppot.blob.core.windows.net/public/challenge_0034",
        "https://ppot.blob.core.windows.net/public/challenge_0035",
        "https://ppot.blob.core.windows.net/public/challenge_0036",
        "https://ppot.blob.core.windows.net/public/challenge_0037",
        "https://ppot.blob.core.windows.net/public/challenge_0038",
        "https://ppot.blob.core.windows.net/public/challenge_0039",
        "https://ppot.blob.core.windows.net/public/challenge_0040",
        "https://ppot.blob.core.windows.net/public/challenge_0041",
        "https://ppot.blob.core.windows.net/public/challenge_0042",
        "https://ppot.blob.core.windows.net/public/challenge_0043",
        "https://ppot.blob.core.windows.net/public/challenge_0044",
        "https://ppot.blob.core.windows.net/public/challenge_0045",
        "https://ppot.blob.core.windows.net/public/challenge_0046",
        "https://ppot.blob.core.windows.net/public/challenge_0047",
        "https://ppot.blob.core.windows.net/public/challenge_0048",
        "https://ppot.blob.core.windows.net/public/challenge_0049",
        "https://ppot.blob.core.windows.net/public/challenge_0050",
        "https://ppot.blob.core.windows.net/public/challenge_0051",
        "https://ppot.blob.core.windows.net/public/challenge_0052",
        "https://ppot.blob.core.windows.net/public/challenge_0053",
        "https://ppot.blob.core.windows.net/public/challenge_0054",
        "https://ppot.blob.core.windows.net/public/challenge_0055",
        "https://ppot.blob.core.windows.net/public/challenge_0056",
        "https://ppot.blob.core.windows.net/public/challenge_0057",
        "https://ppot.blob.core.windows.net/public/challenge_0058",
        "https://ppot.blob.core.windows.net/public/challenge_0059",
        "https://ppot.blob.core.windows.net/public/challenge_0060",
        "https://ppot.blob.core.windows.net/public/challenge_0061",
        "https://ppot.blob.core.windows.net/public/challenge_0062",
        "https://ppot.blob.core.windows.net/public/challenge_0063",
        "https://ppot.blob.core.windows.net/public/challenge_0064",
        "https://ppot.blob.core.windows.net/public/challenge_0065",
        "https://ppot.blob.core.windows.net/public/challenge_0066",
        "https://ppot.blob.core.windows.net/public/challenge_0067",
        "https://ppot.blob.core.windows.net/public/challenge_0068",
        "https://ppot.blob.core.windows.net/public/challenge_0069",
        "https://ppot.blob.core.windows.net/public/challenge_0070",
        "https://ppot.blob.core.windows.net/public/challenge_0071",
        "https://ppot.blob.core.windows.net/public/challenge_0072",
    ];
    proof {
        reveal_with_fuel(decimal, 2);
        reveal_strlit("https://ppot.blob.core.windows.net/public/");
        reveal_strlit("challenge_initial");
        reveal_strlit("challenge_0002_kobi");
        reveal_strlit("challenge_");
        reveal_strlit("https://ppot.blob.core.windows.net/public/challenge_initial");
        reveal_strlit("https://ppot.blob.core.windows.net/public/challenge_0002_kobi");
        reveal_strlit("https://ppot.blob.core.windows.net/public/challenge_0003");
        reveal_strlit("https://ppot.blob.core.windows.net/public/challenge_0004");
        reveal_strlit("https://ppot.blob.core.windows.net/public/challenge_0005");
        reveal_strlit("https://ppot.blob.core.windows.net/public/challenge_0006");
        reveal_strlit("https://ppot.blob.core.windows.net/public/challenge_0007");
        reveal_strlit("https://ppot.blob.core.windows.net/public/challenge_0008");
        reveal_strlit("https://ppot.blob.core.windows.net/public/challenge_0009");
        reveal_strlit("https://ppot.blob.core.windows.net/public/challenge_0010");
        reveal_strlit("https://ppot.blob.core.windows.net/public/challenge_0011");
        reveal_strlit("https://ppot.blob.core.windows.net/public/challenge_0012");
        reveal_strlit("https://ppot.blob.core.windows.net/public/challenge_0013");
        reveal_strlit("https://ppot.blob.core.windows.net/public/challenge_0014");
        reveal_strlit("https://ppot.blob.core.windows.net/public/challenge_0015");
        reveal_strlit("https://ppot.blob.core.windows.net/public/challenge_0016");
        reveal_strlit("https://ppot.blob.core.windows.net/public/challenge_0017");
        reveal_strlit("https://ppot.blob.core.windows.net/public/challenge_0018");
        reveal_strlit("https://ppot.blob.core.windows.net/public/challenge_0019");
        reveal_strlit("https://ppot.blob.core.windows.net/public/challenge_0020");
        reveal_strlit("https://ppot.blob.core.windows.net/public/challenge_0021");
        reveal_strlit("https://ppot.blob.core.windows.net/public/challenge_0022");
        reveal_strlit("https://ppot.blob.core.windows.net/public/challenge_0023");
        reveal_strlit("https://ppot.blob.core.windows.net/public/challenge_0024");
        reveal_strlit("https://ppot.blob.core.windows.net/public/challenge_0025");
        reveal_strlit("https://ppot.blob.core.windows.net/public/challenge_0026");
        reveal_strlit("https://ppot.blob.core.windows.net/public/challenge_0027");
        reveal_strlit("https://ppot.blob.core.windows.net/public/challenge_0028");
        reveal_strlit("https://ppot.blob.core.windows.net/public/challenge_0029");
        reveal_strlit("https://ppot.blob.core.windows.net/public/challenge_0030");
        reveal_strlit("https://ppot.blob.core.windows.net/public/challenge_0031");
        reveal_strlit("https://ppot.blob.core.windows.net/public/challenge_0032");
        reveal_strlit("https://ppot.blob.core.windows.net/public/challenge_0033");
        reveal_strlit("https://ppot.blob.core.windows.net/public/challenge_0034");
        reveal_strlit("https://ppot.blob.core.windows.net/public/challenge_0035");
        reveal_strlit("https://ppot.blob.core.windows.net/public/challenge_0036");
        reveal_strlit("https://ppot.blob.core.windows.net/public/challenge_0037");
        reveal_strlit("https://ppot.blob.core.windows.net/public/challenge_0038");
        reveal_strlit("https://ppot.blob.core.windows.net/public/challenge_0039");
        reveal_strlit("https://ppot.blob.core.windows.net/public/challenge_0040");
        reveal_strlit("https://ppot.blob.core.windows.net/public/challenge_0041");
        reveal_strlit("https://ppot.blob.core.windows.net/public/challenge_0042");
        reveal_strlit("https://ppot.blob.core.windows.net/public/challenge_0043");
        reveal_strlit("https://ppot.blob.core.windows.net/public/challenge_0044");
        reveal_strlit("https://ppot.blob.core.windows.net/public/challenge_0045");
        reveal_strlit("https://ppot.blob.core.windows.net/public/challenge_0046");
        reveal_strlit("https://ppot.blob.core.windows.net/public/challenge_0047");
        reveal_strlit("https://ppot.blob.core.windows.net/public/challenge_0048");
        reveal_strlit("https://ppot.blob.core.windows.net/public/challenge_0049");
        reveal_strlit("https://ppot.blob.core.windows.net/public/challenge_0050");
        reveal_strlit("https://ppot.blob.core.windows.net/public/challenge_0051");
        reveal_strlit("https://ppot.blob.core.windows.net/public/challenge_0052");
        reveal_strlit("https://ppot.blob.core.windows.net/public/challenge_0053");
        reveal_strlit("https://ppot.blob.core.windows.net/public/challenge_0054");
        reveal_strlit("https://ppot.blob.core.windows.net/public/challenge_0055");
        reveal_strlit("https://ppot.blob.core.windows.net/public/challenge_0056");
        reveal_strlit("https://ppot.blob.core.windows.net/public/challenge_0057");
        reveal_strlit("https://ppot.blob.core.windows.net/public/challenge_0058");
        reveal_strlit("https://ppot.blob.core.windows.net/public/challenge_0059");
        reveal_strlit("https://ppot.blob.core.windows.net/public/challenge_0060");
        reveal_strlit("https://ppot.blob.core.windows.net/public/challenge_0061");
        reveal_strlit("https://ppot.blob.core.windows.net/public/challenge_0062");
        reveal_strlit("https://ppot.blob.core.windows.net/public/challenge_0063");
        reveal_strlit("https://ppot.blob.core.windows.net/public/challenge_0064");
        reveal_strlit("https://ppot.blob.core.windows.net/public/challenge_0065");
        reveal_strlit("https://ppot.blob.core.windows.net/public/challenge_0066");
        reveal_strlit("https://ppot.blob.core.windows.net/public/challenge_0067");
        reveal_strlit("https://ppot.blob.core.windows.net/public/challenge_0068");
        reveal_strlit("https://ppot.blob.core.windows.net/public/challenge_0069");
        reveal_strlit("https://ppot.blob.core.windows.net/public/challenge_0070");
        reveal_strlit("https://ppot.blob.core.windows.net/public/challenge_0071");
        reveal_strlit("https://ppot.blob.core.windows.net/public/challenge_0072");
    }
    urls
}

/// The addresses of the responses, in order: each holds the number of its round and ends with
/// the name of the participant.
pub fn response_urls() -> (urls: [&'static str; RESPONSES])
    ensures
        participants().len() == RESPONSES,
        forall|i: int|
            0 <= i < RESPONSES ==> (#[trigger] urls[i])@ == response_url(
                i as nat,
                participants()[i],
            ),
{
    let urls = [
        "https://ppot.blob.core.windows.net/public/response_0001_weijie",
        "https://ppot.blob.core.windows.net/public/response_0002_kobi",
        "https://ppot.blob.core.windows.net/public/response_0003_poma",
        "https://ppot.blob.core.windows.net/public/response_0004_pepesha",
        "https://ppot.blob.core.windows.net/public/response_0005_amrullah",
        "https://ppot.blob.core.windows.net/public/response_0006_zac",
        "https://ppot.blob.core.windows.net/public/response_0007_youssef",
        "https://ppot.blob.core.windows.net/public/response_0008_mike",
        "https://ppot.blob.core.windows.net/public/response_0009_brecht",
        "https://ppot.blob.core.windows.net/public/response_0010_vano",
        "https://ppot.blob.core.windows.net/public/response_0011_zhiniang",
        "https://ppot.blob.core.windows.net/public/response_0012_daniel",
        "https://ppot.blob.core.windows.net/public/response_0013_kevin",
        "https://ppot.blob.core.windows.net/public/response_0014_weijie",
        "https://ppot.blob.core.windows.net/public/response_0015_anon0",
        "https://ppot.blob.core.windows.net/public/response_0016_aurel",
        "https://ppot.blob.core.windows.net/public/response_0017_philip",
        "https://ppot.blob.core.windows.net/public/response_0018_cody",
        "https://ppot.blob.core.windows.net/public/response_0019_petr",
        "https://ppot.blob.core.windows.net/public/response_0020_edu",
        "https://ppot.blob.core.windows.net/public/response_0021_rf",
        "https://ppot.blob.core.windows.net/public/response_0022_roman",
        "https://ppot.blob.core.windows.net/public/response_0023_shomari",
        "https://ppot.blob.core.windows.net/public/response_0024_vb",
        "https://ppot.blob.core.windows.net/public/response_0025_stefan",
        "https://ppot.blob.core.windows.net/public/response_0026_geoff",
        "https://ppot.blob.core.windows.net/public/response_0027_alex",
        "https://ppot.blob.core.windows.net/public/response_0028_dimitris",
        "https://ppot.blob.core.windows.net/public/response_0029_gustavo",
        "https://ppot.blob.core.windows.net/public/response_0030_anant",
        "https://ppot.blob.core.windows.net/public/response_0031_golem",
        "https://ppot.blob.core.windows.net/public/response_0032_josephc",
        "https://ppot.blob.core.windows.net/public/response_0033_oskar",
        "https://ppot.blob.core.windows.net/public/response_0034_igor",
        "https://ppot.blob.core.windows.net/public/response_0035_leonard",
        "https://ppot.blob.core.windows.net/public/response_0036_stefaan",
        "https://ppot.blob.core.windows.net/public/response_0037_chihcheng",
        "https://ppot.blob.core.windows.net/public/response_0038_james",
        "https://ppot.blob.core.windows.net/public/response_0039_wanseob",
        "https://ppot.blob.core.windows.net/public/response_0040_weitang",
        "https://ppot.blob.core.windows.net/public/response_0041_evan",
        "https://ppot.blob.core.windows.net/public/response_0042_vaibhav",
        "https://ppot.blob.core.windows.net/public/response_0043_albert",
        "https://ppot.blob.core.windows.net/public/response_0044_yingtong",
        "https://ppot.blob.core.windows.net/public/response_0045_ben",
        "https://ppot.blob.core.windows.net/public/response_0046_tkorwin",
        "https://ppot.blob.core.windows.net/public/response_0047_saravanan",
        "https://ppot.blob.core.windows.net/public/response_0048_tyler",
        "https://ppot.blob.core.windows.net/public/response_0049_jordi",
        "https://ppot.blob.core.windows.net/public/response_0050_weijie",
        "https://ppot.blob.core.windows.net/public/response_0051_joe",
        "https://ppot.blob.core.windows.net/public/response_0052_zaki",
        "https://ppot.blob.core.windows.net/public/response_0053_juan",
        "https://ppot.blob.core.windows.net/public/response_0054_jarrad",
        "https://ppot.blob.core.windows.net/public/response_0055_tyler",
        "https://ppot.blob.core.windows.net/public/response_0056_auryn",
        "https://ppot.blob.core.windows.net/public/response_0057_gisli",
        "https://ppot.blob.core.windows.net/public/response_0058_rasikh",
        "https://ppot.blob.core.windows.net/public/response_0059_pau",
        "https://ppot.blob.core.windows.net/public/response_0060_weijie",
        "https://ppot.blob.core.windows.net/public/response_0061_adria",
        "https://ppot.blob.core.windows.net/public/response_0062_lev",
        "https://ppot.blob.core.windows.net/public/response_0063_david",
        "https://ppot.blob.core.windows.net/public/response_0064_ian",
        "https://ppot.blob.core.windows.net/public/response_0065_adrian",
        "https://ppot.blob.core.windows.net/public/response_0066_kieran",
        "https://ppot.blob.core.windows.net/public/response_0067_nick",
        "https://ppot.blob.core.windows.net/public/response_0068_elena",
        "https://ppot.blob.core.windows.net/public/response_0069_justice",
        "https://ppot.blob.core.windows.net/public/response_0070_bertrand",
        "https://ppot.blob.core.windows.net/public/response_0071_edward",
    ];
    proof {
        reveal_with_fuel(decimal, 2);
        reveal_strlit("https://ppot.blob.core.windows.net/public/");
        reveal_strlit("response_");
        reveal_strlit("_");
        reveal_strlit("weijie");
        reveal_strlit("kobi");
        reveal_strlit("poma");
        reveal_strlit("pepesha");
        reveal_strlit("amrullah");
        reveal_strlit("zac");
        reveal_strlit("youssef");
        reveal_strlit("mike");
        reveal_strlit("brecht");
        reveal_strlit("vano");
        reveal_strlit("zhiniang");
        reveal_strlit("daniel");
        reveal_strlit("kevin");
        reveal_strlit("anon0");
        reveal_strlit("aurel");
        reveal_strlit("philip");
        reveal_strlit("cody");
        reveal_strlit("petr");
        reveal_strlit("edu");
        reveal_strlit("rf");
        reveal_strlit("roman");
        reveal_strlit("shomari");
        reveal_strlit("vb");
        reveal_strlit("stefan");
        reveal_strlit("geoff");
        reveal_strlit("alex");
        reveal_strlit("dimitris");
        reveal_strlit("gustavo");
        reveal_strlit("anant");
        reveal_strlit("golem");
        reveal_strlit("josephc");
        reveal_strlit("oskar");
        reveal_strlit("igor");
        reveal_strlit("leonard");
        reveal_strlit("stefaan");
        reveal_strlit("chihcheng");
        reveal_strlit("james");
        reveal_strlit("wanseob");
        reveal_strlit("weitang");
        reveal_strlit("evan");
        reveal_strlit("vaibhav");
        reveal_strlit("albert");
        reveal_strlit("yingtong");
        reveal_strlit("ben");
        reveal_strlit("tkorwin");
        reveal_strlit("saravanan");
        reveal_strlit("tyler");
        reveal_strlit("jordi");
        reveal_strlit("joe");
        reveal_strlit("zaki");
        reveal_strlit("juan");
        reveal_strlit("jarrad");
        reveal_strlit("auryn");
        reveal_strlit("gisli");
        reveal_strlit("rasikh");
        reveal_strlit("pau");
        reveal_strlit("adria");
        reveal_strlit("lev");
        reveal_strlit("david");
        reveal_strlit("ian");
        reveal_strlit("adrian");
        reveal_strlit("kieran");
        reveal_strlit("nick");
        reveal_strlit("elena");
        reveal_strlit("justice");
        reveal_strlit("bertrand");
        reveal_strlit("edward");
        reveal_strlit("https://ppot.blob.core.windows.net/public/response_0001_weijie");
        reveal_strlit("https://ppot.blob.core.windows.net/public/response_0002_kobi");
        reveal_strlit("https://ppot.blob.core.windows.net/public/response_0003_poma");
        reveal_strlit("https://ppot.blob.core.windows.net/public/response_0004_pepesha");
        reveal_strlit("https://ppot.blob.core.windows.net/public/response_0005_amrullah");
        reveal_strlit("https://ppot.blob.core.windows.net/public/response_0006_zac");
        reveal_strlit("https://ppot.blob.core.windows.net/public/response_0007_youssef");
        reveal_strlit("https://ppot.blob.core.windows.net/public/response_0008_mike");
        reveal_strlit("https://ppot.blob.core.windows.net/public/response_0009_brecht");
        reveal_strlit("https://ppot.blob.core.windows.net/public/response_0010_vano");
        reveal_strlit("https://ppot.blob.core.windows.net/public/response_0011_zhiniang");
        reveal_strlit("https://ppot.blob.core.windows.net/public/response_0012_daniel");
        reveal_strlit("https://ppot.blob.core.windows.net/public/response_0013_kevin");
        reveal_strlit("https://ppot.blob.core.windows.net/public/response_0014_weijie");
        reveal_strlit("https://ppot.blob.core.windows.net/public/response_0015_anon0");
        reveal_strlit("https://ppot.blob.core.windows.net/public/response_0016_aurel");
        reveal_strlit("https://ppot.blob.core.windows.net/public/response_0017_philip");
        reveal_strlit("https://ppot.blob.core.windows.net/public/response_0018_cody");
        reveal_strlit("https://ppot.blob.core.windows.net/public/response_0019_petr");
        reveal_strlit("https://ppot.blob.core.windows.net/public/response_0020_edu");
        reveal_strlit("https://ppot.blob.core.windows.net/public/response_0021_rf");
        reveal_strlit("https://ppot.blob.core.windows.net/public/response_0022_roman");
        reveal_strlit("https://ppot.blob.core.windows.net/public/response_0023_shomari");
        reveal_strlit("https://ppot.blob.core.windows.net/public/response_0024_vb");
        reveal_strlit("https://ppot.blob.core.windows.net/public/response_0025_stefan");
        reveal_strlit("https://ppot.blob.core.windows.net/public/response_0026_geoff");
        reveal_strlit("https://ppot.blob.core.windows.net/public/response_0027_alex");
        reveal_strlit("https://ppot.blob.core.windows.net/public/response_0028_dimitris");
        reveal_strlit("https://ppot.blob.core.windows.net/public/response_0029_gustavo");
        reveal_strlit("https://ppot.blob.core.windows.net/public/response_0030_anant");
        reveal_strlit("https://ppot.blob.core.windows.net/public/response_0031_golem");
        reveal_strlit("https://ppot.blob.core.windows.net/public/response_0032_josephc");
        reveal_strlit("https://ppot.blob.core.windows.net/public/response_0033_oskar");
        reveal_strlit("https://ppot.blob.core.windows.net/public/response_0034_igor");
        reveal_strlit("https://ppot.blob.core.windows.net/public/response_0035_leonard");
        reveal_strlit("https://ppot.blob.core.windows.net/public/response_0036_stefaan");
        reveal_strlit("https://ppot.blob.core.windows.net/public/response_0037_chihcheng");
        reveal_strlit("https://ppot.blob.core.windows.net/public/response_0038_james");
        reveal_strlit("https://ppot.blob.core.windows.net/public/response_0039_wanseob");
        reveal_strlit("https://ppot.blob.core.windows.net/public/response_0040_weitang");
        reveal_strlit("https://ppot.blob.core.windows.net/public/response_0041_evan");
        reveal_strlit("https://ppot.blob.core.windows.net/public/response_0042_vaibhav");
        reveal_strlit("https://ppot.blob.core.windows.net/public/response_0043_albert");
        reveal_strlit("https://ppot.blob.core.windows.net/public/response_0044_yingtong");
        reveal_strlit("https://ppot.blob.core.windows.net/public/response_0045_ben");
        reveal_strlit("https://ppot.blob.core.windows.net/public/response_0046_tkorwin");
        reveal_strlit("https://ppot.blob.core.windows.net/public/response_0047_saravanan");
        reveal_strlit("https://ppot.blob.core.windows.net/public/response_0048_tyler");
        reveal_strlit("https://ppot.blob.core.windows.net/public/response_0049_jordi");
        reveal_strlit("https://ppot.blob.core.windows.net/public/response_0050_weijie");
        reveal_strlit("https://ppot.blob.core.windows.net/public/response_0051_joe");
        reveal_strlit("https://ppot.blob.core.windows.net/public/response_0052_zaki");
        reveal_strlit("https://ppot.blob.core.windows.net/public/response_0053_juan");
        reveal_strlit("https://ppot.blob.core.windows.net/public/response_0054_jarrad");
        reveal_strlit("https://ppot.blob.core.windows.net/public/response_0055_tyler");
        reveal_strlit("https://ppot.blob.core.windows.net/public/response_0056_auryn");
        reveal_strlit("https://ppot.blob.core.windows.net/public/response_0057_gisli");
        reveal_strlit("https://ppot.blob.core.windows.net/public/response_0058_rasikh");
        reveal_strlit("https://ppot.blob.core.windows.net/public/response_0059_pau");
        reveal_strlit("https://ppot.blob.core.windows.net/public/response_0060_weijie");
        reveal_strlit("https://ppot.blob.core.windows.net/public/response_0061_adria");
        reveal_strlit("https://ppot.blob.core.windows.net/public/response_0062_lev");
        reveal_strlit("https://ppot.blob.core.windows.net/public/response_0063_david");
        reveal_strlit("https://ppot.blob.core.windows.net/public/response_0064_ian");
        reveal_strlit("https://ppot.blob.core.windows.net/public/response_0065_adrian");
        reveal_strlit("https://ppot.blob.core.windows.net/public/response_0066_kieran");
        reveal_strlit("https://ppot.blob.core.windows.net/public/response_0067_nick");
        reveal_strlit("https://ppot.blob.core.windows.net/public/response_0068_elena");
        reveal_strlit("https://ppot.blob.core.windows.net/public/response_0069_justice");
        reveal_strlit("https://ppot.blob.core.windows.net/public/response_0070_bertrand");
        reveal_strlit("https://ppot.blob.core.windows.net/public/response_0071_edward");
    }
    urls
}

/// Challenge path names numbered from 0 to n
pub fn challenge_paths(n: usize) -> (paths: Vec<String>)
    requires
        n < usize::MAX,
    ensures
        paths@.len() == n + 1,
        forall|i: int| 0 <= i <= n ==> (#[trigger] paths@[i])@ == challenge_path(i as nat),
{
    let mut paths: Vec<String> = Vec::new();
    let mut i: usize = 0;
    while i < n + 1
        invariant
            n < usize::MAX,
            i <= n + 1,
            paths@.len() == i,
            forall|j: int| 0 <= j < i ==> (#[trigger] paths@[j])@ == challenge_path(j as nat),
        decreases n + 1 - i,
    {
        let mut path = String::from_str("challenge_");
        push_zero_padded(&mut path, i as u64, 4);
        paths.push(path);
        i += 1;
    }
    paths
}

/// Response path names numbered from 1 to n
pub fn response_paths(n: usize) -> (paths: Vec<String>)
    requires
        n < usize::MAX,
    ensures
        paths@.len() == n,
        forall|i: int| 0 <= i < n ==> (#[trigger] paths@[i])@ == response_path(i as nat),
{
    let mut paths: Vec<String> = Vec::new();
    let mut i: usize = 1;
    while i < n + 1
        invariant
            n < usize::MAX,
            1 <= i <= n + 1,
            paths@.len() == i - 1,
            forall|j: int| 0 <= j < i - 1 ==> (#[trigger] paths@[j])@ == response_path(j as nat),
        decreases n + 1 - i,
    {
        let mut path = String::from_str("response_");
        push_zero_padded(&mut path, i as u64, 4);
        paths.push(path);
        i += 1;
    }
    paths
}

/// The bytes of a file name before its first underscore, or `None` where it has none.
pub open spec fn participant_bytes(file_name: Seq<u8>) -> Option<Seq<u8>> {
    match split_once(file_name, UNDERSCORE) {
        Some((name, _)) => Some(name),
        None => None,
    }
}

/// Extracts the name of a participant from a file name of the form `name_response`: the text
/// before the first underscore, or `None` where there is no underscore.
pub fn parse_participant_name(file_name: &str) -> (name: Option<&str>)
    ensures
        match name {
            Some(name) => participant_bytes(file_name.spec_bytes()) == Some(name.spec_bytes()),
            None => participant_bytes(file_name.spec_bytes()) is None,
        },
{
    match find_byte(file_name.as_bytes(), UNDERSCORE) {
        Some(end) => {
            proof {
                encode_utf8_valid_utf8(file_name@);
                is_char_boundary_iff_not_is_continuation_byte(file_name.spec_bytes(), end as int);
            }
            let (name, _) = file_name.split_at(end);
            Some(name)
        },
        None => None,
    }
}

/// The addresses of a catalog: those of the challenges and those of the responses.
pub struct Listing {
    /// The addresses of the challenges, in order
    pub challenges: Seq<Seq<char>>,
    /// The addresses of the responses, in order
    pub responses: Seq<Seq<char>>,
}

/// The catalog after one more entry of a directory of contributions.
///
/// The entry counts where its first four bytes are the number of the next place. It then
/// gives the address of a challenge and, but for the first place, that of the response before
/// it, for which the entry names the participant from its sixth byte on. An entry that cannot
/// be cut after four bytes, or that counts and has no participant, spoils the catalog.
pub open spec fn listing_step(listing: Listing, name: Seq<char>) -> Option<Listing> {
    let bytes = encode_utf8(name);
    let place = listing.challenges.len();
    if bytes.len() < 4 || !is_char_boundary(bytes, 4) {
        None
    } else if field_value(bytes.subrange(0, 4)) is Ok && field_value(bytes.subrange(0, 4))->Ok_0
        == place {
        let challenges = listing.challenges.push(numbered_challenge_url(place + 1));
        if place == 0 {
            Some(Listing { challenges, responses: listing.responses })
        } else if bytes.len() < 5 || !is_char_boundary(bytes, 5) {
            None
        } else {
            match participant_bytes(bytes.subrange(5, bytes.len() as int)) {
                Some(participant) => Some(
                    Listing {
                        challenges,
                        responses: listing.responses.push(
                            response_url((place - 1) as nat, decode_utf8(participant)),
                        ),
                    },
                ),
                None => None,
            }
        }
    } else {
        Some(listing)
    }
}

/// The catalog after the entries of a directory, taken in order.
pub open spec fn listing_fold(names: Seq<Seq<char>>) -> Option<Listing>
    decreases names.len(),
{
    if names.len() == 0 {
        Some(Listing { challenges: Seq::empty(), responses: Seq::empty() })
    } else {
        match listing_fold(names.drop_last()) {
            Some(listing) => listing_step(listing, names.last()),
            None => None,
        }
    }
}

/// The catalog that the entries of a directory of contributions give, with the addresses that
/// are named out of line put in their places; `None` where an entry spoils the catalog or the
/// catalog is too short to hold those places.
pub open spec fn listed_urls(names: Seq<Seq<char>>) -> Option<Listing> {
    match listing_fold(names) {
        Some(listing) => if listing.challenges.len() < 2 || listing.responses.len() < 40 {
            None
        } else {
            Some(
                Listing {
                    challenges: listing.challenges.update(0, challenge_url(0)).update(
                        1,
                        challenge_url(1),
                    ),
                    responses: listing.responses.update(2, response_url(2, "poma"@)).update(
                        3,
                        response_url(3, "pepesha"@),
                    ).update(11, response_url(11, "daniel"@)).update(
                        15,
                        response_url(15, "aurel"@),
                    ).update(39, response_url(39, "weitang"@)),
                },
            )
        },
        None => None,
    }
}

/// Four bytes stand for a number below ten thousand.
proof fn lemma_four_digits(field: Seq<u8>)
    requires
        field.len() == 4,
        field_value(field) is Ok,
    ensures
        field_value(field)->Ok_0 <= 9999,
{
    reveal_with_fuel(digits_value, 5);
    let digits = if field[0] == crate::text::PLUS {
        field.skip(1)
    } else {
        field
    };
    let d3 = digits.drop_last();
    let d2 = d3.drop_last();
    let d1 = d2.drop_last();
    assert(digits_value(digits) is Ok);
    assert(digits_value(d3) is Ok);
    assert(digits_value(d2) is Ok);
    assert(digits_value(d1) is Ok);
}

fn challenge_address(number: u64) -> (url: String)
    ensures
        url@ == numbered_challenge_url(number as nat),
{
    let mut url = String::from_str("https://ppot.blob.core.windows.net/public/");
    url.append("challenge_");
    push_zero_padded(&mut url, number, 4);
    url
}

fn response_address(number: u64, participant: &str) -> (url: String)
    requires
        number >= 1,
    ensures
        url@ == response_url((number - 1) as nat, participant@),
{
    let mut url = String::from_str("https://ppot.blob.core.windows.net/public/");
    url.append("response_");
    push_zero_padded(&mut url, number, 4);
    url.append("_");
    url.append(participant);
    url
}

fn list_entry(challenges: &mut Vec<String>, responses: &mut Vec<String>, name: &str) -> (listed:
    bool)
    ensures
        match listing_step(
            Listing {
                challenges: old(challenges).deep_view(),
                responses: old(responses).deep_view(),
            },
            name@,
        ) {
            Some(listing) => {
                &&& listed
                &&& final(challenges).deep_view() == listing.challenges
                &&& final(responses).deep_view() == listing.responses
            },
            None => !listed,
        },
{
    let place = challenges.len();
    let len = name.as_bytes().len();
    if len < 4 || !name.is_char_boundary(4) {
        return false;
    }
    let (head, _) = name.split_at(4);
    let counts = match parse_u64(head.as_bytes()) {
        Ok(number) => number == place as u64,
        Err(_) => false,
    };
    if !counts {
        return true;
    }
    proof {
        lemma_four_digits(head.spec_bytes());
    }
    let number = place as u64;
    let ghost before = challenges.deep_view();
    challenges.push(challenge_address(number + 1));
    assert(challenges.deep_view() =~= before.push(numbered_challenge_url((place + 1) as nat)));
    if place == 0 {
        return true;
    }
    if len < 5 || !name.is_char_boundary(5) {
        return false;
    }
    let (_, rest) = name.split_at(5);
    match parse_participant_name(rest) {
        Some(participant) => {
            proof {
                encode_utf8_decode_utf8(participant@);
            }
            let ghost before = responses.deep_view();
            responses.push(response_address(number, participant));
            assert(responses.deep_view() =~= before.push(
                response_url((place - 1) as nat, participant@),
            ));
            true
        },
        None => false,
    }
}

/// Gathers the addresses of the challenges and of the responses from the names of the entries
/// of a directory of contributions, taken in the order given. Returns `None` where an entry
/// spoils the catalog or the catalog is too short for the addresses that are named out of
/// line.
pub fn urls_from_listing(file_names: &Vec<String>) -> (urls: Option<(Vec<String>, Vec<String>)>)
    ensures
        match urls {
            Some((challenges, responses)) => listed_urls(file_names.deep_view()) == Some(
                Listing {
                    challenges: challenges.deep_view(),
                    responses: responses.deep_view(),
                },
            ),
            None => listed_urls(file_names.deep_view()) is None,
        },
{
    let mut challenges: Vec<String> = Vec::new();
    let mut responses: Vec<String> = Vec::new();
    let ghost names = file_names.deep_view();
    let mut i: usize = 0;
    assert(names.take(0) =~= Seq::<Seq<char>>::empty());
    assert(challenges.deep_view() =~= Seq::<Seq<char>>::empty());
    assert(responses.deep_view() =~= Seq::<Seq<char>>::empty());
    while i < file_names.len()
        invariant
            i <= file_names@.len(),
            names == file_names.deep_view(),
            listing_fold(names.take(i as int)) == Some(
                Listing {
                    challenges: challenges.deep_view(),
                    responses: responses.deep_view(),
                },
            ),
        decreases file_names@.len() - i,
    {
        assert(names.take(i + 1).drop_last() =~= names.take(i as int));
        assert(names.take(i + 1).last() == file_names@[i as int]@);
        if !list_entry(&mut challenges, &mut responses, file_names[i].as_str()) {
            proof {
                lemma_spoiled_stays(names, i + 1);
            }
            return None;
        }
        i += 1;
    }
    assert(names.take(i as int) =~= names);
    if challenges.len() < 2 || responses.len() < 40 {
        return None;
    }
    let ghost listed = Listing {
        challenges: challenges.deep_view(),
        responses: responses.deep_view(),
    };
    proof {
        reveal_strlit("https://ppot.blob.core.windows.net/public/");
        reveal_strlit("https://ppot.blob.core.windows.net/public/challenge_initial");
        reveal_strlit("https://ppot.blob.core.windows.net/public/challenge_0002_kobi");
        reveal_strlit("challenge_initial");
        reveal_strlit("challenge_0002_kobi");
    }
    let first = String::from_str("https://ppot.blob.core.windows.net/public/challenge_initial");
    let second = String::from_str("https://ppot.blob.core.windows.net/public/challenge_0002_kobi");
    assert(first@ =~= challenge_url(0));
    assert(second@ =~= challenge_url(1));
    challenges.set(0, first);
    challenges.set(1, second);
    responses.set(2, response_address(3, "poma"));
    responses.set(3, response_address(4, "pepesha"));
    responses.set(11, response_address(12, "daniel"));
    responses.set(15, response_address(16, "aurel"));
    responses.set(39, response_address(40, "weitang"));
    assert(challenges.deep_view() =~= listed.challenges.update(0, challenge_url(0)).update(
        1,
        challenge_url(1),
    ));
    assert(responses.deep_view() =~= listed.responses.update(2, response_url(2, "poma"@)).update(
        3,
        response_url(3, "pepesha"@),
    ).update(11, response_url(11, "daniel"@)).update(15, response_url(15, "aurel"@)).update(
        39,
        response_url(39, "weitang"@),
    ));
    Some((challenges, responses))
}

/// Once an entry has spoiled the catalog, no later entry mends it.
proof fn lemma_spoiled_stays(names: Seq<Seq<char>>, k: int)
    requires
        0 <= k <= names.len(),
        listing_fold(names.take(k)) is None,
    ensures
        listing_fold(names) is None,
    decreases names.len() - k,
{
    if k == names.len() {
        assert(names.take(k) =~= names);
    } else {
        assert(names.take(k + 1).drop_last() =~= names.take(k));
        lemma_spoiled_stays(names, k + 1);
    }
}

} // verus!
