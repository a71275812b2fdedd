//! What the help text promises of the command line: every record option it
//! lists is accepted with a value of the form it shows.

use vstd::prelude::*;
use crate::args::{
    apply_switch_spec, apply_target_spec, apply_value_spec, default_record_view, duration_parts_spec, inline_split,
    is_help_flag, is_help_word, is_switch, is_target_flag, is_value_flag, parse_spec, parse_spec_tokens,
    parse_target_spec, reading_at, record_command_spec, record_loop, record_step, split_inline_spec, with_usage,
    AmountReading, CommandView, RecordArgsView, RecordStep, codec_values_read_as_their_names,
    fps_values_read_as_their_numbers, quality_values_read_as_their_names, resolution_values_read_as_their_names,
};
use crate::settings::{codec_arg, fps_value, quality_arg, resolution_arg, Codec, FrameRate, Quality, Resolution};
use crate::digits::{all_digits, decimal, digit_value, digits_value, parse_u64_spec};
use crate::settings::CaptureSourceKind;
use crate::text::{contains_seq, has_prefix, has_suffix, occurs_at};

verus! {

/// The lengths and telling characters of the command line's words: no two
/// flags share both their length and their third character.
proof fn lemma_word_shapes()
    ensures
        "--target"@.len() == 8,
        "--target"@[0] == '-',
        "--target"@[2] == 't',
        "--display"@.len() == 9,
        "--display"@[0] == '-',
        "--display"@[2] == 'd',
        "--window"@.len() == 8,
        "--window"@[0] == '-',
        "--window"@[2] == 'w',
        "--target-name"@.len() == 13,
        "--target-name"@[0] == '-',
        "--target-name"@[2] == 't',
        "--display-name"@.len() == 14,
        "--display-name"@[0] == '-',
        "--display-name"@[2] == 'd',
        "--window-name"@.len() == 13,
        "--window-name"@[0] == '-',
        "--window-name"@[2] == 'w',
        "--app"@.len() == 5,
        "--app"@[0] == '-',
        "--app"@[2] == 'a',
        "--fps"@.len() == 5,
        "--fps"@[0] == '-',
        "--fps"@[2] == 'f',
        "--codec"@.len() == 7,
        "--codec"@[0] == '-',
        "--codec"@[2] == 'c',
        "--quality"@.len() == 9,
        "--quality"@[0] == '-',
        "--quality"@[2] == 'q',
        "--resolution"@.len() == 12,
        "--resolution"@[0] == '-',
        "--resolution"@[2] == 'r',
        "--out"@.len() == 5,
        "--out"@[0] == '-',
        "--out"@[2] == 'o',
        "--duration"@.len() == 10,
        "--duration"@[0] == '-',
        "--duration"@[2] == 'd',
        "--cursor"@.len() == 8,
        "--cursor"@[0] == '-',
        "--cursor"@[2] == 'c',
        "--no-cursor"@.len() == 11,
        "--no-cursor"@[0] == '-',
        "--no-cursor"@[2] == 'n',
        "--system-audio"@.len() == 14,
        "--system-audio"@[0] == '-',
        "--system-audio"@[2] == 's',
        "--no-system-audio"@.len() == 17,
        "--no-system-audio"@[0] == '-',
        "--no-system-audio"@[2] == 'n',
        "--hide-wrec"@.len() == 11,
        "--hide-wrec"@[0] == '-',
        "--hide-wrec"@[2] == 'h',
        "--no-hide-wrec"@.len() == 14,
        "--no-hide-wrec"@[0] == '-',
        "--no-hide-wrec"@[2] == 'n',
        "--detach"@.len() == 8,
        "--detach"@[0] == '-',
        "--detach"@[2] == 'd',
        "--wait"@.len() == 6,
        "--wait"@[0] == '-',
        "--wait"@[2] == 'w',
        "--queue"@.len() == 7,
        "--queue"@[0] == '-',
        "--queue"@[2] == 'q',
        "--no-queue"@.len() == 10,
        "--no-queue"@[0] == '-',
        "--no-queue"@[2] == 'n',
        "--json"@.len() == 6,
        "--json"@[0] == '-',
        "--json"@[2] == 'j',
        "--help"@.len() == 6,
        "--help"@[0] == '-',
        "--help"@[2] == 'h',
        "start"@.len() == 5,
        "start"@[0] == 's',
        "help"@.len() == 4,
        "help"@[0] == 'h',
        "pause"@.len() == 5,
        "pause"@[0] == 'p',
        "resume"@.len() == 6,
        "resume"@[0] == 'r',
        "stop"@.len() == 4,
        "stop"@[0] == 's',
        "status"@.len() == 6,
        "status"@[0] == 's',
        "-h"@.len() == 2,
        "-h"@[0] == '-',
        "list"@.len() == 4,
        "list"@[0] == 'l',
        "targets"@.len() == 7,
        "targets"@[0] == 't',
        "record"@.len() == 6,
        "record"@[0] == 'r',
        "daemon"@.len() == 6,
        "daemon"@[0] == 'd',
        "jobs"@.len() == 4,
        "jobs"@[0] == 'j',
        "job"@.len() == 3,
        "job"@[0] == 'j',
{
    reveal_strlit("--target");
    reveal_strlit("--display");
    reveal_strlit("--window");
    reveal_strlit("--target-name");
    reveal_strlit("--display-name");
    reveal_strlit("--window-name");
    reveal_strlit("--app");
    reveal_strlit("--fps");
    reveal_strlit("--codec");
    reveal_strlit("--quality");
    reveal_strlit("--resolution");
    reveal_strlit("--out");
    reveal_strlit("--duration");
    reveal_strlit("--cursor");
    reveal_strlit("--no-cursor");
    reveal_strlit("--system-audio");
    reveal_strlit("--no-system-audio");
    reveal_strlit("--hide-wrec");
    reveal_strlit("--no-hide-wrec");
    reveal_strlit("--detach");
    reveal_strlit("--wait");
    reveal_strlit("--queue");
    reveal_strlit("--no-queue");
    reveal_strlit("--json");
    reveal_strlit("--help");
    reveal_strlit("start");
    reveal_strlit("help");
    reveal_strlit("pause");
    reveal_strlit("resume");
    reveal_strlit("stop");
    reveal_strlit("status");
    reveal_strlit("-h");
    reveal_strlit("list");
    reveal_strlit("targets");
    reveal_strlit("record");
    reveal_strlit("daemon");
    reveal_strlit("jobs");
    reveal_strlit("job");
}

/// A token without `=` stays as it is when `--flag=value` tokens are
/// written out.
proof fn lemma_plain_token(t: Seq<char>)
    requires
        !t.contains('='),
    ensures
        inline_split(t) == seq![t],
{
    reveal_strlit("=");
    if contains_seq(t, "="@) {
        let i = choose|i: int| occurs_at(t, "="@, i);
        assert(t.subrange(i, i + 1)[0] == t[i]);
        assert(t[i] == '=');
        assert(t.contains('='));
    }
}

/// Tokens without `=` stay as they are.
#[verifier::spinoff_prover]
proof fn lemma_plain_tokens(ts: Seq<Seq<char>>)
    requires
        forall|n: int| 0 <= n < ts.len() ==> !(#[trigger] ts[n]).contains('='),
    ensures
        split_inline_spec(ts) == ts,
    decreases ts.len(),
{
    if ts.len() == 0 {
        reveal_with_fuel(split_inline_spec, 1);
    } else {
        let d = ts.drop_last();
        assert forall|n: int| 0 <= n < d.len() implies !(#[trigger] d[n]).contains('=') by {
            assert(d[n] == ts[n]);
        }
        lemma_plain_tokens(d);
        lemma_plain_token(ts.last());
        assert(split_inline_spec(ts) == split_inline_spec(d) + inline_split(ts.last())) by {
            reveal(split_inline_spec);
        }
        assert(d + seq![ts.last()] =~= ts);
    }
}

/// A record command whose first option is a flag reads its options from
/// there.
#[verifier::spinoff_prover]
proof fn lemma_record_prefix(ts: Seq<Seq<char>>, rs: Seq<AmountReading>)
    requires
        ts.len() >= 2,
        ts[0] == "record"@,
        ts[1].len() >= 3,
        ts[1][0] == '-',
        ts[1] != "--help"@,
        forall|n: int| 0 <= n < ts.len() ==> !(#[trigger] ts[n]).contains('='),
    ensures
        parse_spec(ts, rs) == record_loop(ts, rs, 1, default_record_view(), None),
{
    lemma_word_shapes();
    lemma_plain_tokens(ts);
    reveal_strlit("-");
    reveal_strlit("--version");
    reveal_strlit("-V");
    assert(ts[1].take(1) =~= "-"@);
    assert(has_prefix(ts[1], "-"@));
    assert(!is_help_word(ts[1]));
    assert(record_command_spec(ts, rs, 1) == record_loop(ts, rs, 1, default_record_view(), None));
    assert(parse_spec_tokens(ts, rs) == record_command_spec(ts, rs, 1));
}

/// A record option that takes a value, given one it accepts.
proof fn lemma_value_option(ts: Seq<Seq<char>>, rs: Seq<AmountReading>)
    requires
        ts.len() == 3,
        is_value_flag(ts[1]),
        !is_help_flag(ts[1]),
        !is_target_flag(ts[1]),
        apply_value_spec(ts[1], ts[2], reading_at(rs, 2), default_record_view()) is Ok,
    ensures
        record_loop(ts, rs, 1, default_record_view(), None) matches Ok(CommandView::Record(_)),
{
    let o = apply_value_spec(ts[1], ts[2], reading_at(rs, 2), default_record_view())->Ok_0;
    assert(record_step(ts, rs, 1, default_record_view(), None) == RecordStep::Next(true, o, None));
    assert(record_loop(ts, rs, 3, o, None) == Ok::<CommandView, Seq<char>>(CommandView::Record(o)));
}

/// A capture target option, given a value it accepts.
proof fn lemma_target_option(ts: Seq<Seq<char>>, rs: Seq<AmountReading>)
    requires
        ts.len() == 3,
        is_target_flag(ts[1]),
        !is_help_flag(ts[1]),
        apply_target_spec(ts[1], ts[2], default_record_view()) is Ok,
    ensures
        record_loop(ts, rs, 1, default_record_view(), None) matches Ok(CommandView::Record(_)),
{
    let o = apply_target_spec(ts[1], ts[2], default_record_view())->Ok_0;
    assert(record_step(ts, rs, 1, default_record_view(), None) == RecordStep::Next(true, o, Some(ts[1])));
    assert(record_loop(ts, rs, 3, o, Some(ts[1])) == Ok::<CommandView, Seq<char>>(CommandView::Record(o)));
}

/// A record switch.
proof fn lemma_switch_option(ts: Seq<Seq<char>>, rs: Seq<AmountReading>)
    requires
        ts.len() == 2,
        is_switch(ts[1]),
        !is_help_flag(ts[1]),
        !is_target_flag(ts[1]),
        !is_value_flag(ts[1]),
    ensures
        record_loop(ts, rs, 1, default_record_view(), None) matches Ok(CommandView::Record(_)),
{
    let o = apply_switch_spec(ts[1], default_record_view());
    assert(record_step(ts, rs, 1, default_record_view(), None) == RecordStep::Next(false, o, None));
    assert(record_loop(ts, rs, 2, o, None) == Ok::<CommandView, Seq<char>>(CommandView::Record(o)));
}

/// A number of one or two digits reads as itself.
proof fn lemma_small_id(v: Seq<char>, n: u64)
    requires
        1 <= v.len() <= 2,
        v.len() == 1 ==> v[0] as int == '0' as int + n,
        v.len() == 2 ==> v[0] as int == '0' as int + n / 10 && v[1] as int == '0' as int + n % 10,
        v.len() == 2 ==> 10 <= n < 100,
        v.len() == 1 ==> n < 10,
    ensures
        parse_u64_spec(v) == Some(n),
{
    assert(v.len() > 0 && v[0] != '+');
    assert(all_digits(v));
    if v.len() == 1 {
        assert(v.drop_last().len() == 0);
        assert(digits_value(v.drop_last()) == 0);
        assert(digits_value(v) == digit_value(v[0]));
    } else {
        let d = v.drop_last();
        assert(d.drop_last().len() == 0);
        assert(d.last() == v[0]);
        assert(digits_value(d.drop_last()) == 0);
        assert(digits_value(d) == digit_value(v[0]));
        assert(digits_value(v) == digits_value(d) * 10 + digit_value(v[1]));
        assert(n / 10 * 10 + n % 10 == n);
    }
    assert(digits_value(v) == n);
}

/// `display:1` names display 1.
proof fn lemma_display_one()
    ensures
        parse_target_spec("display:1"@) == Ok::<(CaptureSourceKind, u64), Seq<char>>((CaptureSourceKind::Display, 1)),
{
    reveal_strlit("display:1");
    reveal_strlit(":");
    reveal_strlit("display");
    let v = "display:1"@;
    assert(occurs_at(v, ":"@, 7)) by {
        assert(v.subrange(7, 8) =~= ":"@);
    }
    assert(forall|j: int| 0 <= j < 7 ==> !occurs_at(v, ":"@, j)) by {
        assert forall|j: int| 0 <= j < 7 implies !occurs_at(v, ":"@, j) by {
            assert(v.subrange(j, j + 1)[0] == v[j]);
        }
    }
    let k = choose|i: int| occurs_at(v, ":"@, i) && forall|j: int| 0 <= j < i ==> !occurs_at(v, ":"@, j);
    assert(k == 7) by {
        if k < 7 {
        } else if k > 7 {
            assert(!occurs_at(v, ":"@, 7));
        }
    }
    assert(v.take(7) =~= "display"@);
    assert(v.skip(8) =~= seq!['1']);
    lemma_small_id(seq!['1'], 1);
}

/// `30s` is a number of seconds.
#[verifier::spinoff_prover]
proof fn lemma_thirty_seconds()
    ensures
        duration_parts_spec("30s"@) is Some,
{
    reveal_strlit("30s");
    reveal_strlit("ms");
    reveal_strlit("s");
    let v = "30s"@;
    assert(v.skip(1)[0] == '0');
    assert(!has_suffix(v, "ms"@)) by {
        if has_suffix(v, "ms"@) {
            assert(v.skip(1)[0] == "ms"@[0]);
        }
    }
    assert(v.skip(2) =~= "s"@);
    assert(has_suffix(v, "s"@));
}

/// `wrec record <flag> <value>` with a value flag whose value is accepted
/// reads as a recording.
#[verifier::spinoff_prover]
proof fn lemma_value_command(o: Seq<char>, v: Seq<char>, rs: Seq<AmountReading>)
    requires
        !"record"@.contains('='),
        !o.contains('='),
        !v.contains('='),
        o.len() >= 3,
        o[0] == '-',
        o != "--help"@,
        is_value_flag(o),
        !is_help_flag(o),
        !is_target_flag(o),
        apply_value_spec(o, v, reading_at(rs, 2), default_record_view()) is Ok,
    ensures
        parse_spec(seq!["record"@, o, v], rs) matches Ok(CommandView::Record(_)),
{
    let ts = seq!["record"@, o, v];
    assert forall|n: int| 0 <= n < ts.len() implies !(#[trigger] ts[n]).contains('=') by {}
    lemma_record_prefix(ts, rs);
    lemma_value_option(ts, rs);
}

/// `wrec record <flag> <value>` with a capture target flag whose value is
/// accepted reads as a recording.
#[verifier::spinoff_prover]
#[verifier::rlimit(40)]
proof fn lemma_target_command(o: Seq<char>, v: Seq<char>, rs: Seq<AmountReading>)
    requires
        !"record"@.contains('='),
        !o.contains('='),
        !v.contains('='),
        o.len() >= 3,
        o[0] == '-',
        o != "--help"@,
        is_target_flag(o),
        !is_help_flag(o),
        apply_target_spec(o, v, default_record_view()) is Ok,
    ensures
        parse_spec(seq!["record"@, o, v], rs) matches Ok(CommandView::Record(_)),
{
    let ts = seq!["record"@, o, v];
    assert forall|n: int| 0 <= n < ts.len() implies !(#[trigger] ts[n]).contains('=') by {}
    lemma_record_prefix(ts, rs);
    lemma_target_option(ts, rs);
}

/// `wrec record <switch>` reads as a recording.
#[verifier::spinoff_prover]
proof fn lemma_switch_command(o: Seq<char>, rs: Seq<AmountReading>)
    requires
        !"record"@.contains('='),
        !o.contains('='),
        o.len() >= 3,
        o[0] == '-',
        o != "--help"@,
        is_switch(o),
        !is_help_flag(o),
        !is_target_flag(o),
        !is_value_flag(o),
    ensures
        parse_spec(seq!["record"@, o], rs) matches Ok(CommandView::Record(_)),
{
    let ts = seq!["record"@, o];
    assert forall|n: int| 0 <= n < ts.len() implies !(#[trigger] ts[n]).contains('=') by {}
    lemma_record_prefix(ts, rs);
    lemma_switch_option(ts, rs);
}

/// The word `record` has no `=`.
proof fn lemma_record_plain()
    ensures
        !"record"@.contains('='),
{
    reveal_strlit("record");
}

proof fn lemma_target_plain()
    ensures
        !"--target"@.contains('='),
        !"display:1"@.contains('='),
{
    reveal_strlit("--target");
    reveal_strlit("display:1");
}

#[verifier::spinoff_prover]
proof fn lemma_target_shape()
    ensures
        "--target"@.len() >= 3,
        "--target"@[0] == '-',
        "--target"@ != "--help"@,
        !is_help_flag("--target"@),
        is_target_flag("--target"@),
        apply_target_spec("--target"@, "display:1"@, default_record_view()) is Ok,
{
    reveal_strlit("--target");
    reveal_strlit("display:1");
    lemma_word_shapes();
    lemma_display_one();
}

proof fn accepts_target(rs: Seq<AmountReading>)
    ensures
        reads_as_recording(seq!["record"@, "--target"@, "display:1"@], rs),
{
    reveal(reads_as_recording);
    lemma_record_plain();
    lemma_target_plain();
    lemma_target_shape();
    lemma_target_command("--target"@, "display:1"@, rs);
}

proof fn lemma_display_plain()
    ensures
        !"--display"@.contains('='),
        !"1"@.contains('='),
{
    reveal_strlit("--display");
    reveal_strlit("1");
}

#[verifier::spinoff_prover]
proof fn lemma_display_shape()
    ensures
        "--display"@.len() >= 3,
        "--display"@[0] == '-',
        "--display"@ != "--help"@,
        !is_help_flag("--display"@),
        is_target_flag("--display"@),
        apply_target_spec("--display"@, "1"@, default_record_view()) is Ok,
{
    reveal_strlit("--display");
    reveal_strlit("1");
    lemma_word_shapes();
    lemma_small_id("1"@, 1);
}

proof fn accepts_display(rs: Seq<AmountReading>)
    ensures
        reads_as_recording(seq!["record"@, "--display"@, "1"@], rs),
{
    reveal(reads_as_recording);
    lemma_record_plain();
    lemma_display_plain();
    lemma_display_shape();
    lemma_target_command("--display"@, "1"@, rs);
}

proof fn lemma_window_plain()
    ensures
        !"--window"@.contains('='),
        !"42"@.contains('='),
{
    reveal_strlit("--window");
    reveal_strlit("42");
}

#[verifier::spinoff_prover]
proof fn lemma_window_shape()
    ensures
        "--window"@.len() >= 3,
        "--window"@[0] == '-',
        "--window"@ != "--help"@,
        !is_help_flag("--window"@),
        is_target_flag("--window"@),
        apply_target_spec("--window"@, "42"@, default_record_view()) is Ok,
{
    reveal_strlit("--window");
    reveal_strlit("42");
    lemma_word_shapes();
    lemma_small_id("42"@, 42);
}

proof fn accepts_window(rs: Seq<AmountReading>)
    ensures
        reads_as_recording(seq!["record"@, "--window"@, "42"@], rs),
{
    reveal(reads_as_recording);
    lemma_record_plain();
    lemma_window_plain();
    lemma_window_shape();
    lemma_target_command("--window"@, "42"@, rs);
}

proof fn lemma_app_plain()
    ensures
        !"--app"@.contains('='),
        !"Safari"@.contains('='),
{
    reveal_strlit("--app");
    reveal_strlit("Safari");
}

#[verifier::spinoff_prover]
proof fn lemma_app_shape()
    ensures
        "--app"@.len() >= 3,
        "--app"@[0] == '-',
        "--app"@ != "--help"@,
        !is_help_flag("--app"@),
        is_target_flag("--app"@),
        apply_target_spec("--app"@, "Safari"@, default_record_view()) is Ok,
{
    reveal_strlit("--app");
    reveal_strlit("Safari");
    lemma_word_shapes();
}

proof fn accepts_app(rs: Seq<AmountReading>)
    ensures
        reads_as_recording(seq!["record"@, "--app"@, "Safari"@], rs),
{
    reveal(reads_as_recording);
    lemma_record_plain();
    lemma_app_plain();
    lemma_app_shape();
    lemma_target_command("--app"@, "Safari"@, rs);
}

proof fn lemma_target_name_plain()
    ensures
        !"--target-name"@.contains('='),
        !"Main"@.contains('='),
{
    reveal_strlit("--target-name");
    reveal_strlit("Main");
}

#[verifier::spinoff_prover]
proof fn lemma_target_name_shape()
    ensures
        "--target-name"@.len() >= 3,
        "--target-name"@[0] == '-',
        "--target-name"@ != "--help"@,
        !is_help_flag("--target-name"@),
        is_target_flag("--target-name"@),
        apply_target_spec("--target-name"@, "Main"@, default_record_view()) is Ok,
{
    reveal_strlit("--target-name");
    reveal_strlit("Main");
    lemma_word_shapes();
}

proof fn accepts_target_name(rs: Seq<AmountReading>)
    ensures
        reads_as_recording(seq!["record"@, "--target-name"@, "Main"@], rs),
{
    reveal(reads_as_recording);
    lemma_record_plain();
    lemma_target_name_plain();
    lemma_target_name_shape();
    lemma_target_command("--target-name"@, "Main"@, rs);
}

proof fn lemma_window_name_plain()
    ensures
        !"--window-name"@.contains('='),
        !"Notes"@.contains('='),
{
    reveal_strlit("--window-name");
    reveal_strlit("Notes");
}

#[verifier::spinoff_prover]
proof fn lemma_window_name_shape()
    ensures
        "--window-name"@.len() >= 3,
        "--window-name"@[0] == '-',
        "--window-name"@ != "--help"@,
        !is_help_flag("--window-name"@),
        is_target_flag("--window-name"@),
        apply_target_spec("--window-name"@, "Notes"@, default_record_view()) is Ok,
{
    reveal_strlit("--window-name");
    reveal_strlit("Notes");
    lemma_word_shapes();
}

proof fn accepts_window_name(rs: Seq<AmountReading>)
    ensures
        reads_as_recording(seq!["record"@, "--window-name"@, "Notes"@], rs),
{
    reveal(reads_as_recording);
    lemma_record_plain();
    lemma_window_name_plain();
    lemma_window_name_shape();
    lemma_target_command("--window-name"@, "Notes"@, rs);
}

proof fn lemma_display_name_plain()
    ensures
        !"--display-name"@.contains('='),
        !"Main"@.contains('='),
{
    reveal_strlit("--display-name");
    reveal_strlit("Main");
}

#[verifier::spinoff_prover]
proof fn lemma_display_name_shape()
    ensures
        "--display-name"@.len() >= 3,
        "--display-name"@[0] == '-',
        "--display-name"@ != "--help"@,
        !is_help_flag("--display-name"@),
        is_target_flag("--display-name"@),
        apply_target_spec("--display-name"@, "Main"@, default_record_view()) is Ok,
{
    reveal_strlit("--display-name");
    reveal_strlit("Main");
    lemma_word_shapes();
}

proof fn accepts_display_name(rs: Seq<AmountReading>)
    ensures
        reads_as_recording(seq!["record"@, "--display-name"@, "Main"@], rs),
{
    reveal(reads_as_recording);
    lemma_record_plain();
    lemma_display_name_plain();
    lemma_display_name_shape();
    lemma_target_command("--display-name"@, "Main"@, rs);
}

proof fn lemma_fps_plain()
    ensures
        !"--fps"@.contains('='),
        !"60"@.contains('='),
{
    reveal_strlit("--fps");
    reveal_strlit("60");
}

#[verifier::spinoff_prover]
proof fn lemma_fps_shape(rs: Seq<AmountReading>)
    ensures
        "--fps"@.len() >= 3,
        "--fps"@[0] == '-',
        "--fps"@ != "--help"@,
        !is_help_flag("--fps"@),
        is_value_flag("--fps"@),
        !is_target_flag("--fps"@),
        apply_value_spec("--fps"@, "60"@, reading_at(rs, 2), default_record_view()) is Ok,
{
    reveal_strlit("--fps");
    reveal_strlit("60");
    lemma_word_shapes();
    reveal_strlit("30");
    assert("60"@[0] != "30"@[0]);
}

proof fn accepts_fps(rs: Seq<AmountReading>)
    ensures
        reads_as_recording(seq!["record"@, "--fps"@, "60"@], rs),
{
    reveal(reads_as_recording);
    lemma_record_plain();
    lemma_fps_plain();
    lemma_fps_shape(rs);
    lemma_value_command("--fps"@, "60"@, rs);
}

proof fn lemma_codec_plain()
    ensures
        !"--codec"@.contains('='),
        !"hevc"@.contains('='),
{
    reveal_strlit("--codec");
    reveal_strlit("hevc");
}

#[verifier::spinoff_prover]
proof fn lemma_codec_shape(rs: Seq<AmountReading>)
    ensures
        "--codec"@.len() >= 3,
        "--codec"@[0] == '-',
        "--codec"@ != "--help"@,
        !is_help_flag("--codec"@),
        is_value_flag("--codec"@),
        !is_target_flag("--codec"@),
        apply_value_spec("--codec"@, "hevc"@, reading_at(rs, 2), default_record_view()) is Ok,
{
    reveal_strlit("--codec");
    reveal_strlit("hevc");
    lemma_word_shapes();
}

proof fn accepts_codec(rs: Seq<AmountReading>)
    ensures
        reads_as_recording(seq!["record"@, "--codec"@, "hevc"@], rs),
{
    reveal(reads_as_recording);
    lemma_record_plain();
    lemma_codec_plain();
    lemma_codec_shape(rs);
    lemma_value_command("--codec"@, "hevc"@, rs);
}

proof fn lemma_quality_plain()
    ensures
        !"--quality"@.contains('='),
        !"balanced"@.contains('='),
{
    reveal_strlit("--quality");
    reveal_strlit("balanced");
}

#[verifier::spinoff_prover]
proof fn lemma_quality_shape(rs: Seq<AmountReading>)
    ensures
        "--quality"@.len() >= 3,
        "--quality"@[0] == '-',
        "--quality"@ != "--help"@,
        !is_help_flag("--quality"@),
        is_value_flag("--quality"@),
        !is_target_flag("--quality"@),
        apply_value_spec("--quality"@, "balanced"@, reading_at(rs, 2), default_record_view()) is Ok,
{
    reveal_strlit("--quality");
    reveal_strlit("balanced");
    lemma_word_shapes();
    reveal_strlit("efficient");
    assert("efficient"@.len() == 9);
}

proof fn accepts_quality(rs: Seq<AmountReading>)
    ensures
        reads_as_recording(seq!["record"@, "--quality"@, "balanced"@], rs),
{
    reveal(reads_as_recording);
    lemma_record_plain();
    lemma_quality_plain();
    lemma_quality_shape(rs);
    lemma_value_command("--quality"@, "balanced"@, rs);
}

proof fn lemma_resolution_plain()
    ensures
        !"--resolution"@.contains('='),
        !"1080p"@.contains('='),
{
    reveal_strlit("--resolution");
    reveal_strlit("1080p");
}

#[verifier::spinoff_prover]
proof fn lemma_resolution_shape(rs: Seq<AmountReading>)
    ensures
        "--resolution"@.len() >= 3,
        "--resolution"@[0] == '-',
        "--resolution"@ != "--help"@,
        !is_help_flag("--resolution"@),
        is_value_flag("--resolution"@),
        !is_target_flag("--resolution"@),
        apply_value_spec("--resolution"@, "1080p"@, reading_at(rs, 2), default_record_view()) is Ok,
{
    reveal_strlit("--resolution");
    reveal_strlit("1080p");
    lemma_word_shapes();
    reveal_strlit("native");
    reveal_strlit("720p");
    assert("native"@.len() == 6 && "720p"@.len() == 4);
}

proof fn accepts_resolution(rs: Seq<AmountReading>)
    ensures
        reads_as_recording(seq!["record"@, "--resolution"@, "1080p"@], rs),
{
    reveal(reads_as_recording);
    lemma_record_plain();
    lemma_resolution_plain();
    lemma_resolution_shape(rs);
    lemma_value_command("--resolution"@, "1080p"@, rs);
}

proof fn lemma_out_plain()
    ensures
        !"--out"@.contains('='),
        !"/tmp"@.contains('='),
{
    reveal_strlit("--out");
    reveal_strlit("/tmp");
}

#[verifier::spinoff_prover]
proof fn lemma_out_shape(rs: Seq<AmountReading>)
    ensures
        "--out"@.len() >= 3,
        "--out"@[0] == '-',
        "--out"@ != "--help"@,
        !is_help_flag("--out"@),
        is_value_flag("--out"@),
        !is_target_flag("--out"@),
        apply_value_spec("--out"@, "/tmp"@, reading_at(rs, 2), default_record_view()) is Ok,
{
    reveal_strlit("--out");
    reveal_strlit("/tmp");
    lemma_word_shapes();
}

proof fn accepts_out(rs: Seq<AmountReading>)
    ensures
        reads_as_recording(seq!["record"@, "--out"@, "/tmp"@], rs),
{
    reveal(reads_as_recording);
    lemma_record_plain();
    lemma_out_plain();
    lemma_out_shape(rs);
    lemma_value_command("--out"@, "/tmp"@, rs);
}

proof fn lemma_duration_plain()
    ensures
        !"--duration"@.contains('='),
        !"30s"@.contains('='),
{
    reveal_strlit("--duration");
    reveal_strlit("30s");
}

#[verifier::spinoff_prover]
proof fn lemma_duration_shape(rs: Seq<AmountReading>)
    requires
        reading_at(rs, 2) is Read,
    ensures
        "--duration"@.len() >= 3,
        "--duration"@[0] == '-',
        "--duration"@ != "--help"@,
        !is_help_flag("--duration"@),
        is_value_flag("--duration"@),
        !is_target_flag("--duration"@),
        apply_value_spec("--duration"@, "30s"@, reading_at(rs, 2), default_record_view()) is Ok,
{
    reveal_strlit("--duration");
    reveal_strlit("30s");
    lemma_word_shapes();
    lemma_thirty_seconds();
}

proof fn accepts_duration(rs: Seq<AmountReading>)
    requires
        reading_at(rs, 2) is Read,
    ensures
        reads_as_recording(seq!["record"@, "--duration"@, "30s"@], rs),
{
    reveal(reads_as_recording);
    lemma_record_plain();
    lemma_duration_plain();
    lemma_duration_shape(rs);
    lemma_value_command("--duration"@, "30s"@, rs);
}

proof fn lemma_cursor_plain()
    ensures
        !"--cursor"@.contains('='),
{
    reveal_strlit("--cursor");
}

#[verifier::spinoff_prover]
proof fn lemma_cursor_shape()
    ensures
        "--cursor"@.len() >= 3,
        "--cursor"@[0] == '-',
        "--cursor"@ != "--help"@,
        !is_help_flag("--cursor"@),
        is_switch("--cursor"@),
        !is_target_flag("--cursor"@),
        !is_value_flag("--cursor"@),
{
    reveal_strlit("--cursor");
    lemma_word_shapes();
}

proof fn accepts_cursor(rs: Seq<AmountReading>)
    ensures
        reads_as_recording(seq!["record"@, "--cursor"@], rs),
{
    reveal(reads_as_recording);
    lemma_record_plain();
    lemma_cursor_plain();
    lemma_cursor_shape();
    lemma_switch_command("--cursor"@, rs);
}

proof fn lemma_no_cursor_plain()
    ensures
        !"--no-cursor"@.contains('='),
{
    reveal_strlit("--no-cursor");
}

#[verifier::spinoff_prover]
proof fn lemma_no_cursor_shape()
    ensures
        "--no-cursor"@.len() >= 3,
        "--no-cursor"@[0] == '-',
        "--no-cursor"@ != "--help"@,
        !is_help_flag("--no-cursor"@),
        is_switch("--no-cursor"@),
        !is_target_flag("--no-cursor"@),
        !is_value_flag("--no-cursor"@),
{
    reveal_strlit("--no-cursor");
    lemma_word_shapes();
}

proof fn accepts_no_cursor(rs: Seq<AmountReading>)
    ensures
        reads_as_recording(seq!["record"@, "--no-cursor"@], rs),
{
    reveal(reads_as_recording);
    lemma_record_plain();
    lemma_no_cursor_plain();
    lemma_no_cursor_shape();
    lemma_switch_command("--no-cursor"@, rs);
}

proof fn lemma_system_audio_plain()
    ensures
        !"--system-audio"@.contains('='),
{
    reveal_strlit("--system-audio");
}

#[verifier::spinoff_prover]
proof fn lemma_system_audio_shape()
    ensures
        "--system-audio"@.len() >= 3,
        "--system-audio"@[0] == '-',
        "--system-audio"@ != "--help"@,
        !is_help_flag("--system-audio"@),
        is_switch("--system-audio"@),
        !is_target_flag("--system-audio"@),
        !is_value_flag("--system-audio"@),
{
    reveal_strlit("--system-audio");
    lemma_word_shapes();
}

proof fn accepts_system_audio(rs: Seq<AmountReading>)
    ensures
        reads_as_recording(seq!["record"@, "--system-audio"@], rs),
{
    reveal(reads_as_recording);
    lemma_record_plain();
    lemma_system_audio_plain();
    lemma_system_audio_shape();
    lemma_switch_command("--system-audio"@, rs);
}

proof fn lemma_no_system_audio_plain()
    ensures
        !"--no-system-audio"@.contains('='),
{
    reveal_strlit("--no-system-audio");
}

#[verifier::spinoff_prover]
proof fn lemma_no_system_audio_shape()
    ensures
        "--no-system-audio"@.len() >= 3,
        "--no-system-audio"@[0] == '-',
        "--no-system-audio"@ != "--help"@,
        !is_help_flag("--no-system-audio"@),
        is_switch("--no-system-audio"@),
        !is_target_flag("--no-system-audio"@),
        !is_value_flag("--no-system-audio"@),
{
    reveal_strlit("--no-system-audio");
    lemma_word_shapes();
}

proof fn accepts_no_system_audio(rs: Seq<AmountReading>)
    ensures
        reads_as_recording(seq!["record"@, "--no-system-audio"@], rs),
{
    reveal(reads_as_recording);
    lemma_record_plain();
    lemma_no_system_audio_plain();
    lemma_no_system_audio_shape();
    lemma_switch_command("--no-system-audio"@, rs);
}

proof fn lemma_hide_wrec_plain()
    ensures
        !"--hide-wrec"@.contains('='),
{
    reveal_strlit("--hide-wrec");
}

#[verifier::spinoff_prover]
proof fn lemma_hide_wrec_shape()
    ensures
        "--hide-wrec"@.len() >= 3,
        "--hide-wrec"@[0] == '-',
        "--hide-wrec"@ != "--help"@,
        !is_help_flag("--hide-wrec"@),
        is_switch("--hide-wrec"@),
        !is_target_flag("--hide-wrec"@),
        !is_value_flag("--hide-wrec"@),
{
    reveal_strlit("--hide-wrec");
    lemma_word_shapes();
}

proof fn accepts_hide_wrec(rs: Seq<AmountReading>)
    ensures
        reads_as_recording(seq!["record"@, "--hide-wrec"@], rs),
{
    reveal(reads_as_recording);
    lemma_record_plain();
    lemma_hide_wrec_plain();
    lemma_hide_wrec_shape();
    lemma_switch_command("--hide-wrec"@, rs);
}

proof fn lemma_no_hide_wrec_plain()
    ensures
        !"--no-hide-wrec"@.contains('='),
{
    reveal_strlit("--no-hide-wrec");
}

#[verifier::spinoff_prover]
proof fn lemma_no_hide_wrec_shape()
    ensures
        "--no-hide-wrec"@.len() >= 3,
        "--no-hide-wrec"@[0] == '-',
        "--no-hide-wrec"@ != "--help"@,
        !is_help_flag("--no-hide-wrec"@),
        is_switch("--no-hide-wrec"@),
        !is_target_flag("--no-hide-wrec"@),
        !is_value_flag("--no-hide-wrec"@),
{
    reveal_strlit("--no-hide-wrec");
    lemma_word_shapes();
}

proof fn accepts_no_hide_wrec(rs: Seq<AmountReading>)
    ensures
        reads_as_recording(seq!["record"@, "--no-hide-wrec"@], rs),
{
    reveal(reads_as_recording);
    lemma_record_plain();
    lemma_no_hide_wrec_plain();
    lemma_no_hide_wrec_shape();
    lemma_switch_command("--no-hide-wrec"@, rs);
}

proof fn lemma_detach_plain()
    ensures
        !"--detach"@.contains('='),
{
    reveal_strlit("--detach");
}

#[verifier::spinoff_prover]
proof fn lemma_detach_shape()
    ensures
        "--detach"@.len() >= 3,
        "--detach"@[0] == '-',
        "--detach"@ != "--help"@,
        !is_help_flag("--detach"@),
        is_switch("--detach"@),
        !is_target_flag("--detach"@),
        !is_value_flag("--detach"@),
{
    reveal_strlit("--detach");
    lemma_word_shapes();
}

proof fn accepts_detach(rs: Seq<AmountReading>)
    ensures
        reads_as_recording(seq!["record"@, "--detach"@], rs),
{
    reveal(reads_as_recording);
    lemma_record_plain();
    lemma_detach_plain();
    lemma_detach_shape();
    lemma_switch_command("--detach"@, rs);
}

proof fn lemma_queue_plain()
    ensures
        !"--queue"@.contains('='),
{
    reveal_strlit("--queue");
}

#[verifier::spinoff_prover]
proof fn lemma_queue_shape()
    ensures
        "--queue"@.len() >= 3,
        "--queue"@[0] == '-',
        "--queue"@ != "--help"@,
        !is_help_flag("--queue"@),
        is_switch("--queue"@),
        !is_target_flag("--queue"@),
        !is_value_flag("--queue"@),
{
    reveal_strlit("--queue");
    lemma_word_shapes();
}

proof fn accepts_queue(rs: Seq<AmountReading>)
    ensures
        reads_as_recording(seq!["record"@, "--queue"@], rs),
{
    reveal(reads_as_recording);
    lemma_record_plain();
    lemma_queue_plain();
    lemma_queue_shape();
    lemma_switch_command("--queue"@, rs);
}

proof fn lemma_no_queue_plain()
    ensures
        !"--no-queue"@.contains('='),
{
    reveal_strlit("--no-queue");
}

#[verifier::spinoff_prover]
proof fn lemma_no_queue_shape()
    ensures
        "--no-queue"@.len() >= 3,
        "--no-queue"@[0] == '-',
        "--no-queue"@ != "--help"@,
        !is_help_flag("--no-queue"@),
        is_switch("--no-queue"@),
        !is_target_flag("--no-queue"@),
        !is_value_flag("--no-queue"@),
{
    reveal_strlit("--no-queue");
    lemma_word_shapes();
}

proof fn accepts_no_queue(rs: Seq<AmountReading>)
    ensures
        reads_as_recording(seq!["record"@, "--no-queue"@], rs),
{
    reveal(reads_as_recording);
    lemma_record_plain();
    lemma_no_queue_plain();
    lemma_no_queue_shape();
    lemma_switch_command("--no-queue"@, rs);
}

proof fn lemma_json_plain()
    ensures
        !"--json"@.contains('='),
{
    reveal_strlit("--json");
}

#[verifier::spinoff_prover]
proof fn lemma_json_shape()
    ensures
        "--json"@.len() >= 3,
        "--json"@[0] == '-',
        "--json"@ != "--help"@,
        !is_help_flag("--json"@),
        is_switch("--json"@),
        !is_target_flag("--json"@),
        !is_value_flag("--json"@),
{
    reveal_strlit("--json");
    lemma_word_shapes();
}

proof fn accepts_json(rs: Seq<AmountReading>)
    ensures
        reads_as_recording(seq!["record"@, "--json"@], rs),
{
    reveal(reads_as_recording);
    lemma_record_plain();
    lemma_json_plain();
    lemma_json_shape();
    lemma_switch_command("--json"@, rs);
}


/// `wrec` reads the arguments as a recording.
#[verifier::opaque]
pub open spec fn reads_as_recording(args: Seq<Seq<char>>, rs: Seq<AmountReading>) -> bool {
    parse_spec(args, rs) matches Ok(CommandView::Record(_))
}

/// How many record options the help text lists.
pub open spec fn listed_record_option_count() -> int {
    23
}

/// Record option `n` that the help text lists, with a value of the form
/// the text shows for it; a switch takes none.
pub open spec fn listed_record_option(n: int) -> Seq<Seq<char>> {
    if n == 0 {
        seq!["--target"@, "display:1"@]
    } else if n == 1 {
        seq!["--display"@, "1"@]
    } else if n == 2 {
        seq!["--window"@, "42"@]
    } else if n == 3 {
        seq!["--app"@, "Safari"@]
    } else if n == 4 {
        seq!["--target-name"@, "Main"@]
    } else if n == 5 {
        seq!["--window-name"@, "Notes"@]
    } else if n == 6 {
        seq!["--display-name"@, "Main"@]
    } else if n == 7 {
        seq!["--fps"@, "60"@]
    } else if n == 8 {
        seq!["--codec"@, "hevc"@]
    } else if n == 9 {
        seq!["--quality"@, "balanced"@]
    } else if n == 10 {
        seq!["--resolution"@, "1080p"@]
    } else if n == 11 {
        seq!["--out"@, "/tmp"@]
    } else if n == 12 {
        seq!["--duration"@, "30s"@]
    } else if n == 13 {
        seq!["--cursor"@]
    } else if n == 14 {
        seq!["--no-cursor"@]
    } else if n == 15 {
        seq!["--system-audio"@]
    } else if n == 16 {
        seq!["--no-system-audio"@]
    } else if n == 17 {
        seq!["--hide-wrec"@]
    } else if n == 18 {
        seq!["--no-hide-wrec"@]
    } else if n == 19 {
        seq!["--detach"@]
    } else if n == 20 {
        seq!["--queue"@]
    } else if n == 21 {
        seq!["--no-queue"@]
    } else if n == 22 {
        seq!["--json"@]
    } else {
        Seq::empty()
    }
}

proof fn lemma_listed_target(rs: Seq<AmountReading>)
    ensures
        reads_as_recording(seq!["record"@] + listed_record_option(0), rs),
{
    accepts_target(rs);
    assert(listed_record_option(0) == seq!["--target"@, "display:1"@]);
    assert(seq!["record"@] + seq!["--target"@, "display:1"@] =~= seq!["record"@, "--target"@, "display:1"@]);
}

proof fn lemma_listed_display(rs: Seq<AmountReading>)
    ensures
        reads_as_recording(seq!["record"@] + listed_record_option(1), rs),
{
    accepts_display(rs);
    assert(listed_record_option(1) == seq!["--display"@, "1"@]);
    assert(seq!["record"@] + seq!["--display"@, "1"@] =~= seq!["record"@, "--display"@, "1"@]);
}

proof fn lemma_listed_window(rs: Seq<AmountReading>)
    ensures
        reads_as_recording(seq!["record"@] + listed_record_option(2), rs),
{
    accepts_window(rs);
    assert(listed_record_option(2) == seq!["--window"@, "42"@]);
    assert(seq!["record"@] + seq!["--window"@, "42"@] =~= seq!["record"@, "--window"@, "42"@]);
}

proof fn lemma_listed_app(rs: Seq<AmountReading>)
    ensures
        reads_as_recording(seq!["record"@] + listed_record_option(3), rs),
{
    accepts_app(rs);
    assert(listed_record_option(3) == seq!["--app"@, "Safari"@]);
    assert(seq!["record"@] + seq!["--app"@, "Safari"@] =~= seq!["record"@, "--app"@, "Safari"@]);
}

proof fn lemma_listed_target_name(rs: Seq<AmountReading>)
    ensures
        reads_as_recording(seq!["record"@] + listed_record_option(4), rs),
{
    accepts_target_name(rs);
    assert(listed_record_option(4) == seq!["--target-name"@, "Main"@]);
    assert(seq!["record"@] + seq!["--target-name"@, "Main"@] =~= seq!["record"@, "--target-name"@, "Main"@]);
}

proof fn lemma_listed_window_name(rs: Seq<AmountReading>)
    ensures
        reads_as_recording(seq!["record"@] + listed_record_option(5), rs),
{
    accepts_window_name(rs);
    assert(listed_record_option(5) == seq!["--window-name"@, "Notes"@]);
    assert(seq!["record"@] + seq!["--window-name"@, "Notes"@] =~= seq!["record"@, "--window-name"@, "Notes"@]);
}

proof fn lemma_listed_display_name(rs: Seq<AmountReading>)
    ensures
        reads_as_recording(seq!["record"@] + listed_record_option(6), rs),
{
    accepts_display_name(rs);
    assert(listed_record_option(6) == seq!["--display-name"@, "Main"@]);
    assert(seq!["record"@] + seq!["--display-name"@, "Main"@] =~= seq!["record"@, "--display-name"@, "Main"@]);
}

proof fn lemma_listed_fps(rs: Seq<AmountReading>)
    ensures
        reads_as_recording(seq!["record"@] + listed_record_option(7), rs),
{
    accepts_fps(rs);
    assert(listed_record_option(7) == seq!["--fps"@, "60"@]);
    assert(seq!["record"@] + seq!["--fps"@, "60"@] =~= seq!["record"@, "--fps"@, "60"@]);
}

proof fn lemma_listed_codec(rs: Seq<AmountReading>)
    ensures
        reads_as_recording(seq!["record"@] + listed_record_option(8), rs),
{
    accepts_codec(rs);
    assert(listed_record_option(8) == seq!["--codec"@, "hevc"@]);
    assert(seq!["record"@] + seq!["--codec"@, "hevc"@] =~= seq!["record"@, "--codec"@, "hevc"@]);
}

proof fn lemma_listed_quality(rs: Seq<AmountReading>)
    ensures
        reads_as_recording(seq!["record"@] + listed_record_option(9), rs),
{
    accepts_quality(rs);
    assert(listed_record_option(9) == seq!["--quality"@, "balanced"@]);
    assert(seq!["record"@] + seq!["--quality"@, "balanced"@] =~= seq!["record"@, "--quality"@, "balanced"@]);
}

proof fn lemma_listed_resolution(rs: Seq<AmountReading>)
    ensures
        reads_as_recording(seq!["record"@] + listed_record_option(10), rs),
{
    accepts_resolution(rs);
    assert(listed_record_option(10) == seq!["--resolution"@, "1080p"@]);
    assert(seq!["record"@] + seq!["--resolution"@, "1080p"@] =~= seq!["record"@, "--resolution"@, "1080p"@]);
}

proof fn lemma_listed_out(rs: Seq<AmountReading>)
    ensures
        reads_as_recording(seq!["record"@] + listed_record_option(11), rs),
{
    accepts_out(rs);
    assert(listed_record_option(11) == seq!["--out"@, "/tmp"@]);
    assert(seq!["record"@] + seq!["--out"@, "/tmp"@] =~= seq!["record"@, "--out"@, "/tmp"@]);
}

proof fn lemma_listed_duration(rs: Seq<AmountReading>)
    requires
        reading_at(rs, 2) is Read,
    ensures
        reads_as_recording(seq!["record"@] + listed_record_option(12), rs),
{
    accepts_duration(rs);
    assert(listed_record_option(12) == seq!["--duration"@, "30s"@]);
    assert(seq!["record"@] + seq!["--duration"@, "30s"@] =~= seq!["record"@, "--duration"@, "30s"@]);
}

proof fn lemma_listed_cursor(rs: Seq<AmountReading>)
    ensures
        reads_as_recording(seq!["record"@] + listed_record_option(13), rs),
{
    accepts_cursor(rs);
    assert(listed_record_option(13) == seq!["--cursor"@]);
    assert(seq!["record"@] + seq!["--cursor"@] =~= seq!["record"@, "--cursor"@]);
}

proof fn lemma_listed_no_cursor(rs: Seq<AmountReading>)
    ensures
        reads_as_recording(seq!["record"@] + listed_record_option(14), rs),
{
    accepts_no_cursor(rs);
    assert(listed_record_option(14) == seq!["--no-cursor"@]);
    assert(seq!["record"@] + seq!["--no-cursor"@] =~= seq!["record"@, "--no-cursor"@]);
}

proof fn lemma_listed_system_audio(rs: Seq<AmountReading>)
    ensures
        reads_as_recording(seq!["record"@] + listed_record_option(15), rs),
{
    accepts_system_audio(rs);
    assert(listed_record_option(15) == seq!["--system-audio"@]);
    assert(seq!["record"@] + seq!["--system-audio"@] =~= seq!["record"@, "--system-audio"@]);
}

proof fn lemma_listed_no_system_audio(rs: Seq<AmountReading>)
    ensures
        reads_as_recording(seq!["record"@] + listed_record_option(16), rs),
{
    accepts_no_system_audio(rs);
    assert(listed_record_option(16) == seq!["--no-system-audio"@]);
    assert(seq!["record"@] + seq!["--no-system-audio"@] =~= seq!["record"@, "--no-system-audio"@]);
}

proof fn lemma_listed_hide_wrec(rs: Seq<AmountReading>)
    ensures
        reads_as_recording(seq!["record"@] + listed_record_option(17), rs),
{
    accepts_hide_wrec(rs);
    assert(listed_record_option(17) == seq!["--hide-wrec"@]);
    assert(seq!["record"@] + seq!["--hide-wrec"@] =~= seq!["record"@, "--hide-wrec"@]);
}

proof fn lemma_listed_no_hide_wrec(rs: Seq<AmountReading>)
    ensures
        reads_as_recording(seq!["record"@] + listed_record_option(18), rs),
{
    accepts_no_hide_wrec(rs);
    assert(listed_record_option(18) == seq!["--no-hide-wrec"@]);
    assert(seq!["record"@] + seq!["--no-hide-wrec"@] =~= seq!["record"@, "--no-hide-wrec"@]);
}

proof fn lemma_listed_detach(rs: Seq<AmountReading>)
    ensures
        reads_as_recording(seq!["record"@] + listed_record_option(19), rs),
{
    accepts_detach(rs);
    assert(listed_record_option(19) == seq!["--detach"@]);
    assert(seq!["record"@] + seq!["--detach"@] =~= seq!["record"@, "--detach"@]);
}

proof fn lemma_listed_queue(rs: Seq<AmountReading>)
    ensures
        reads_as_recording(seq!["record"@] + listed_record_option(20), rs),
{
    accepts_queue(rs);
    assert(listed_record_option(20) == seq!["--queue"@]);
    assert(seq!["record"@] + seq!["--queue"@] =~= seq!["record"@, "--queue"@]);
}

proof fn lemma_listed_no_queue(rs: Seq<AmountReading>)
    ensures
        reads_as_recording(seq!["record"@] + listed_record_option(21), rs),
{
    accepts_no_queue(rs);
    assert(listed_record_option(21) == seq!["--no-queue"@]);
    assert(seq!["record"@] + seq!["--no-queue"@] =~= seq!["record"@, "--no-queue"@]);
}

proof fn lemma_listed_json(rs: Seq<AmountReading>)
    ensures
        reads_as_recording(seq!["record"@] + listed_record_option(22), rs),
{
    accepts_json(rs);
    assert(listed_record_option(22) == seq!["--json"@]);
    assert(seq!["record"@] + seq!["--json"@] =~= seq!["record"@, "--json"@]);
}

proof fn lemma_listed_targets(n: int, rs: Seq<AmountReading>)
    requires
        0 <= n < 7,
    ensures
        reads_as_recording(seq!["record"@] + listed_record_option(n), rs),
{
    if n == 0 {
        lemma_listed_target(rs);
    } else if n == 1 {
        lemma_listed_display(rs);
    } else if n == 2 {
        lemma_listed_window(rs);
    } else if n == 3 {
        lemma_listed_app(rs);
    } else if n == 4 {
        lemma_listed_target_name(rs);
    } else if n == 5 {
        lemma_listed_window_name(rs);
    } else if n == 6 {
        lemma_listed_display_name(rs);
    }
}

proof fn lemma_listed_values(n: int, rs: Seq<AmountReading>)
    requires
        7 <= n < 13,
        n == 12 ==> reading_at(rs, 2) is Read,
    ensures
        reads_as_recording(seq!["record"@] + listed_record_option(n), rs),
{
    if n == 7 {
        lemma_listed_fps(rs);
    } else if n == 8 {
        lemma_listed_codec(rs);
    } else if n == 9 {
        lemma_listed_quality(rs);
    } else if n == 10 {
        lemma_listed_resolution(rs);
    } else if n == 11 {
        lemma_listed_out(rs);
    } else if n == 12 {
        lemma_listed_duration(rs);
    }
}

proof fn lemma_listed_switches(n: int, rs: Seq<AmountReading>)
    requires
        13 <= n < 23,
    ensures
        reads_as_recording(seq!["record"@] + listed_record_option(n), rs),
{
    if n == 13 {
        lemma_listed_cursor(rs);
    } else if n == 14 {
        lemma_listed_no_cursor(rs);
    } else if n == 15 {
        lemma_listed_system_audio(rs);
    } else if n == 16 {
        lemma_listed_no_system_audio(rs);
    } else if n == 17 {
        lemma_listed_hide_wrec(rs);
    } else if n == 18 {
        lemma_listed_no_hide_wrec(rs);
    } else if n == 19 {
        lemma_listed_detach(rs);
    } else if n == 20 {
        lemma_listed_queue(rs);
    } else if n == 21 {
        lemma_listed_no_queue(rs);
    } else if n == 22 {
        lemma_listed_json(rs);
    }
}

/// Every record option that the help text lists is accepted with a value
/// of the form the text shows: `wrec record <option> [<value>]` reads as a
/// recording. For `--duration 30s` this holds when the number `30` reads
/// as a float giving a duration, as it does.
pub proof fn listed_record_options_are_accepted(n: int, rs: Seq<AmountReading>)
    requires
        0 <= n < listed_record_option_count(),
        n == 12 ==> reading_at(rs, 2) is Read,
    ensures
        reads_as_recording(seq!["record"@] + listed_record_option(n), rs),
{
    if n < 7 {
        lemma_listed_targets(n, rs);
    } else if n < 13 {
        lemma_listed_values(n, rs);
    } else {
        lemma_listed_switches(n, rs);
    }
}

/// Each value that the help text lists for `--fps`, `--codec`,
/// `--quality` and `--resolution` sets that option, and only it, to the
/// setting of that name.
pub proof fn listed_values_set_their_option(
    out: RecordArgsView,
    reading: AmountReading,
    f: FrameRate,
    c: Codec,
    q: Quality,
    r: Resolution,
)
    ensures
        apply_value_spec("--fps"@, decimal(fps_value(f)), reading, out)
            == Ok::<RecordArgsView, Seq<char>>(RecordArgsView { fps: Some(f), ..out }),
        apply_value_spec("--codec"@, codec_arg(c), reading, out)
            == Ok::<RecordArgsView, Seq<char>>(RecordArgsView { codec: Some(c), ..out }),
        apply_value_spec("--quality"@, quality_arg(q), reading, out)
            == Ok::<RecordArgsView, Seq<char>>(RecordArgsView { quality: Some(q), ..out }),
        apply_value_spec("--resolution"@, resolution_arg(r), reading, out)
            == Ok::<RecordArgsView, Seq<char>>(RecordArgsView { resolution: Some(r), ..out }),
{
    lemma_word_shapes();
    fps_values_read_as_their_numbers(decimal(fps_value(f)), f);
    codec_values_read_as_their_names(codec_arg(c), c);
    quality_values_read_as_their_names(quality_arg(q), q);
    resolution_values_read_as_their_names(resolution_arg(r), r);
}

/// A first word that is none of the commands is refused with the help
/// text: `unknown command` and the word, then the usage.
#[verifier::spinoff_prover]
pub proof fn unknown_commands_are_answered_with_the_help_text(x: Seq<char>, rs: Seq<AmountReading>)
    requires
        !x.contains('='),
        x != "list"@,
        x != "targets"@,
        x != "record"@,
        x != "daemon"@,
        x != "jobs"@,
        x != "job"@,
        x != "help"@,
        x != "-h"@,
        x != "--help"@,
        x != "-V"@,
        x != "--version"@,
    ensures
        parse_spec(seq![x], rs) == Err::<CommandView, Seq<char>>(with_usage("unknown command `"@ + x + "`"@)),
{
    let ts = seq![x];
    assert forall|n: int| 0 <= n < ts.len() implies !(#[trigger] ts[n]).contains('=') by {}
    lemma_plain_tokens(ts);
}

} // verus!
