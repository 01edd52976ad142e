use vstd::prelude::*;
use crate::crc::{calculate, checksum_text, crc32c_of, format_hex, is_hex_char, lemma_hex_of_shape};
use crate::json::{is_json, json_value_of};
use crate::meta::count_records;
use crate::reader::{all_lines_ok, computed_crc, first_bad_line, crc_ok, crc_part, is_framed, json_part, line_ok, records};
use crate::text::{is_blank, is_white, trim, trim_end, trim_start};
use vstd::utf8::encode_utf8;

verus! {

/// A framed record: its JSON text, a tab, and the checksum of that text.
pub open spec fn framed_text(json: Seq<char>) -> Seq<char> {
    json + seq!['\t'] + computed_crc(json)
}

/// The line that stores one record: `<json>\t<checksum>\n`, the checksum being
/// computed over the JSON text's exact bytes.
pub fn frame_line(json: &str) -> (r: String)
    ensures
        r@ == framed_text(json@) + seq!['\n'],
{
    let crc = format_hex(calculate(json.as_bytes()));
    let mut line = String::from_str(json);
    proof {
        reveal_strlit("\t");
        reveal_strlit("\n");
    }
    line.append("\t");
    line.append(crc.as_str());
    line.append("\n");
    assert(line@ =~= framed_text(json@) + seq!['\n']);
    line
}

/// Whether a JSON text can head a line unchanged by trimming: it is not empty
/// and does not begin with white space, as no text that `serde_json` writes does.
pub open spec fn starts_unspaced(json: Seq<char>) -> bool {
    json.len() > 0 && !is_white(json[0])
}

/// A JSON text followed by a tab and any checksum text is a framed line
/// that trimming leaves alone.
proof fn lemma_suffixed(json: Seq<char>, code: u32)
    requires
        starts_unspaced(json),
    ensures
        ({
            let s = json + seq!['\t'] + checksum_text(code);
            &&& trim(s) == s
            &&& is_framed(s)
            &&& json_part(s) == json
            &&& crc_part(s) == checksum_text(code)
            &&& !is_blank(s)
        }),
{
    let s = json + seq!['\t'] + checksum_text(code);
    let crc = checksum_text(code);
    lemma_hex_of_shape(code as nat, 8);
    assert(s.len() == json.len() + 9);
    assert(s[0] == json[0]);
    assert(is_hex_char(crc[7]));
    assert(s.last() == crc[7]);
    assert(trim_start(s) == s);
    assert(trim_end(s) == s);
    assert(s[s.len() - 9] == '\t');
    assert forall|i: int| s.len() - 8 <= i < s.len() implies s[i] != '\t' by {
        assert(s[i] == crc[i - (s.len() - 8)]);
        assert(is_hex_char(crc[i - (s.len() - 8)]));
    }
    assert(s.subrange(0, s.len() - 9) =~= json);
    assert(s.subrange(s.len() - 8, s.len() as int) =~= crc);
}

/// A record written as a framed line reads back as its own JSON text: the
/// line survives trimming, passes its checksum check, and its JSON part is
/// exactly the text that was written.
pub proof fn lemma_frame_round_trip(json: Seq<char>)
    requires
        starts_unspaced(json),
    ensures
        trim(framed_text(json)) == framed_text(json),
        is_framed(framed_text(json)),
        json_part(framed_text(json)) == json,
        crc_ok(framed_text(json)),
        !is_blank(framed_text(json)),
{
    lemma_suffixed(json, crc32c_of(encode_utf8(json)));
}

/// A framed line whose JSON text was changed after its checksum was computed,
/// so that the checksum of the text no longer matches, fails the read at that
/// line: it is the first line that cannot be read, and it fails its checksum
/// check, so the error names it.
pub proof fn lemma_corruption_found(lines: Seq<Seq<char>>, k: int, json: Seq<char>, changed: Seq<char>)
    requires
        0 <= k < lines.len(),
        all_lines_ok(lines.take(k)),
        starts_unspaced(changed),
        lines[k] == changed + seq!['\t'] + computed_crc(json),
        computed_crc(changed) != computed_crc(json),
    ensures
        first_bad_line(lines, k),
        !crc_ok(trim(lines[k])),
        forall|k2: int| #[trigger] first_bad_line(lines, k2) ==> k2 == k,
{
    lemma_suffixed(changed, crc32c_of(encode_utf8(json)));
    assert forall|k2: int| #[trigger] first_bad_line(lines, k2) implies k2 == k by {
        if k2 < k {
            assert(lines.take(k)[k2] == lines[k2]);
        } else if k2 > k {
            assert(lines.take(k2)[k] == lines[k]);
        }
    }
}

/// Records appended as framed lines read back in append order: every line is
/// read without error, the records are the written texts' documents one for
/// one, and the log holds exactly as many records as were appended.
pub proof fn lemma_append_order_kept(jsons: Seq<Seq<char>>)
    requires
        forall|i: int|
            0 <= i < jsons.len() ==> starts_unspaced(#[trigger] jsons[i]) && is_json(jsons[i]),
    ensures
        all_lines_ok(jsons.map_values(|j: Seq<char>| framed_text(j))),
        records(jsons.map_values(|j: Seq<char>| framed_text(j))) == jsons.map_values(
            |j: Seq<char>| json_value_of(j),
        ),
        count_records(jsons.map_values(|j: Seq<char>| framed_text(j))) == jsons.len(),
    decreases jsons.len(),
{
    let lines = jsons.map_values(|j: Seq<char>| framed_text(j));
    if jsons.len() > 0 {
        let front = jsons.drop_last();
        lemma_append_order_kept(front);
        let j = jsons.last();
        lemma_frame_round_trip(j);
        assert(lines.drop_last() =~= front.map_values(|j: Seq<char>| framed_text(j)));
        assert(lines.last() == framed_text(j));
        assert(line_ok(lines.last()));
        assert forall|i: int| 0 <= i < lines.len() implies line_ok(#[trigger] lines[i]) by {
            if i < lines.len() - 1 {
                assert(lines[i] == lines.drop_last()[i]);
            }
        }
        assert(jsons.map_values(|j: Seq<char>| json_value_of(j)) =~= front.map_values(
            |j: Seq<char>| json_value_of(j),
        ).push(json_value_of(j)));
    } else {
        assert(jsons.map_values(|j: Seq<char>| json_value_of(j)) =~= Seq::empty());
    }
}

/// A legacy line, a bare JSON text without a checksum suffix, is read without
/// error as the document of that text.
pub proof fn lemma_legacy_line_read(json: Seq<char>)
    requires
        starts_unspaced(json),
        !is_white(json.last()),
        !is_framed(json),
        is_json(json),
    ensures
        all_lines_ok(seq![json]),
        records(seq![json]) == seq![json_value_of(json)],
{
    assert(trim_start(json) == json);
    assert(trim_end(json) == json);
    assert(line_ok(seq![json][0]));
    assert(seq![json].drop_last() =~= Seq::<Seq<char>>::empty());
    assert(seq![json].last() == json);
    assert(!is_blank(json));
    assert(json_part(trim(json)) == json);
    assert(records(Seq::<Seq<char>>::empty()) == Seq::<serde_json::Value>::empty());
    assert(records(seq![json]) =~= seq![json_value_of(json)]);
}

} // verus!
