//! CSV export for simulation step results, encoded through the `csv`
//! crate.

use vstd::prelude::*;

verus! {

use crate::sim::types::StepResult;
use crate::telemetry::{bool_chars, row_chars, row_formattable, row_from_result, TelemetryRow,
    TELEMETRY_SCHEMA_V1_HEADER};
use crate::text::{
    dec_digits_spec,
    format_milli,
    format_micro,
    format_u64,
    lemma_digits_plain,
    lemma_micro_plain,
    lemma_milli_plain,
    micro_chars,
    milli_chars,
    plain_field,
};

/// The fields of one record joined by commas.
pub open spec fn join_comma(fields: Seq<Seq<char>>) -> Seq<char>
    decreases fields.len(),
{
    if fields.len() == 0 {
        Seq::empty()
    } else if fields.len() == 1 {
        fields[0]
    } else {
        join_comma(fields.drop_last()) + ","@ + fields.last()
    }
}

/// Relies on `csv::Writer::write_record` with the default configuration:
/// fields free of commas, quotes, carriage returns and newlines need no
/// quoting and are written verbatim, separated by commas, with the record
/// terminated by a newline. A record consisting of one empty field is the
/// one plain record the crate still quotes (it would otherwise be
/// indistinguishable from an empty record), so the contract leaves that
/// case open.
#[verifier::external_body]
fn csv_record_line(fields: &Vec<String>) -> (r: String)
    ensures
        (fields@.len() > 1 || (fields@.len() == 1 && fields@[0]@.len() > 0)) && (forall|i: int|
            0 <= i < fields@.len() ==> plain_field(#[trigger] fields@[i]@)) ==> r@ == join_comma(
            fields@.map_values(|f: String| f@),
        ) + "\n"@,
{
    let mut writer = csv::WriterBuilder::new().from_writer(Vec::new());
    let _ = writer.write_record(fields.iter().map(|f| f.as_bytes()));
    let buffer = writer.into_inner().unwrap_or_default();
    String::from_utf8(buffer).unwrap_or_default()
}

/// The CSV file of a record sequence: the schema v1 header, then one line
/// per step in schema order, every line ended by a newline. The lines
/// carry the same text as the telemetry rows of the records.
pub open spec fn export_csv_chars(results: Seq<StepResult>) -> Seq<char>
    decreases results.len(),
{
    if results.len() == 0 {
        TELEMETRY_SCHEMA_V1_HEADER@ + "\n"@
    } else {
        export_csv_chars(results.drop_last()) + row_chars(result_row(results.last())) + "\n"@
    }
}

/// The telemetry view of a record (the schema v1 field renaming).
pub open spec fn result_row(r: StepResult) -> TelemetryRow {
    TelemetryRow {
        timestep: r.timestep,
        time_hr: r.time_hr,
        target_kw: r.target_kw,
        feeder_kw: r.feeder_kw,
        tracking_error_kw: r.tracking_error_kw,
        baseload_kw: r.base_kw_after_dr,
        solar_kw: r.solar_kw,
        ev_requested_kw: r.ev_requested_kw,
        ev_dispatched_kw: r.ev_actual_kw,
        battery_kw: r.battery_actual_kw,
        battery_soc: r.battery_soc,
        dr_requested_kw: r.dr_requested_kw,
        dr_achieved_kw: r.dr_achieved_kw,
        limit_ok: r.within_feeder_limits,
    }
}

/// Writes simulation results as CSV text: a header row followed by one
/// data row per step in the schema v1 column layout. The output is a pure
/// function of the records, so identical inputs give identical bytes.
#[verifier::rlimit(100)]
pub fn write_csv(results: &Vec<StepResult>) -> (s: String)
    requires
        forall|i: int|
            0 <= i < results@.len() ==> row_formattable(result_row(#[trigger] results@[i])),
    ensures
        s@ == export_csv_chars(results@),
{
    let mut s = TELEMETRY_SCHEMA_V1_HEADER.to_owned();
    s.append("\n");
    proof {
        assert(results@.take(0) =~= Seq::<StepResult>::empty());
        assert(s@ =~= export_csv_chars(results@.take(0)));
    }
    let mut i: usize = 0;
    while i < results.len()
        invariant
            0 <= i <= results@.len(),
            forall|j: int|
                0 <= j < results@.len() ==> row_formattable(result_row(#[trigger] results@[j])),
            s@ == export_csv_chars(results@.take(i as int)),
        decreases results@.len() - i,
    {
        let row = row_from_result(&results[i]);
        let mut fields: Vec<String> = Vec::new();
        fields.push(format_u64(row.timestep as u64));
        fields.push(format_milli(row.time_hr));
        fields.push(format_milli(row.target_kw));
        fields.push(format_milli(row.feeder_kw));
        fields.push(format_milli(row.tracking_error_kw));
        fields.push(format_milli(row.baseload_kw));
        fields.push(format_milli(row.solar_kw));
        fields.push(format_milli(row.ev_requested_kw));
        fields.push(format_milli(row.ev_dispatched_kw));
        fields.push(format_milli(row.battery_kw));
        fields.push(format_micro(row.battery_soc));
        fields.push(format_milli(row.dr_requested_kw));
        fields.push(format_milli(row.dr_achieved_kw));
        fields.push(if row.limit_ok {
            "true".to_owned()
        } else {
            "false".to_owned()
        });
        proof {
            lemma_fields_plain(row, fields@);
            lemma_join_is_row(row, fields@.map_values(|f: String| f@));
        }
        let line = csv_record_line(&fields);
        s.append(line.as_str());
        proof {
            assert(results@.take(i as int + 1).drop_last() =~= results@.take(i as int));
            assert(results@.take(i as int + 1).last() == results@[i as int]);
            assert(s@ =~= export_csv_chars(results@.take(i as int + 1)));
        }
        i = i + 1;
    }
    proof {
        assert(results@.take(results@.len() as int) =~= results@);
    }
    s
}

/// The formatted fields of a row are plain CSV fields.
proof fn lemma_fields_plain(row: TelemetryRow, fields: Seq<String>)
    requires
        fields.len() == 14,
        fields[0]@ == dec_digits_spec(row.timestep as nat),
        fields[1]@ == milli_chars(row.time_hr as int),
        fields[2]@ == milli_chars(row.target_kw as int),
        fields[3]@ == milli_chars(row.feeder_kw as int),
        fields[4]@ == milli_chars(row.tracking_error_kw as int),
        fields[5]@ == milli_chars(row.baseload_kw as int),
        fields[6]@ == milli_chars(row.solar_kw as int),
        fields[7]@ == milli_chars(row.ev_requested_kw as int),
        fields[8]@ == milli_chars(row.ev_dispatched_kw as int),
        fields[9]@ == milli_chars(row.battery_kw as int),
        fields[10]@ == micro_chars(row.battery_soc as int),
        fields[11]@ == milli_chars(row.dr_requested_kw as int),
        fields[12]@ == milli_chars(row.dr_achieved_kw as int),
        fields[13]@ == bool_chars(row.limit_ok),
    ensures
        forall|i: int| 0 <= i < fields.len() ==> plain_field(#[trigger] fields[i]@),
{
    lemma_digits_plain(row.timestep as nat);
    lemma_milli_plain(row.time_hr as int);
    lemma_milli_plain(row.target_kw as int);
    lemma_milli_plain(row.feeder_kw as int);
    lemma_milli_plain(row.tracking_error_kw as int);
    lemma_milli_plain(row.baseload_kw as int);
    lemma_milli_plain(row.solar_kw as int);
    lemma_milli_plain(row.ev_requested_kw as int);
    lemma_milli_plain(row.ev_dispatched_kw as int);
    lemma_milli_plain(row.battery_kw as int);
    lemma_micro_plain(row.battery_soc as int);
    lemma_milli_plain(row.dr_requested_kw as int);
    lemma_milli_plain(row.dr_achieved_kw as int);
    reveal_strlit("true");
    reveal_strlit("false");
    assert(plain_field(bool_chars(row.limit_ok)));
    assert forall|i: int| 0 <= i < fields.len() implies plain_field(#[trigger] fields[i]@) by {
        if i == 0 {
        } else if i == 10 {
        } else if i == 13 {
        } else {
        }
    }
}

/// The comma-join of a row's fields is exactly its telemetry line.
#[verifier::rlimit(100)]
proof fn lemma_join_is_row(row: TelemetryRow, views: Seq<Seq<char>>)
    requires
        views.len() == 14,
        views[0] == dec_digits_spec(row.timestep as nat),
        views[1] == milli_chars(row.time_hr as int),
        views[2] == milli_chars(row.target_kw as int),
        views[3] == milli_chars(row.feeder_kw as int),
        views[4] == milli_chars(row.tracking_error_kw as int),
        views[5] == milli_chars(row.baseload_kw as int),
        views[6] == milli_chars(row.solar_kw as int),
        views[7] == milli_chars(row.ev_requested_kw as int),
        views[8] == milli_chars(row.ev_dispatched_kw as int),
        views[9] == milli_chars(row.battery_kw as int),
        views[10] == micro_chars(row.battery_soc as int),
        views[11] == milli_chars(row.dr_requested_kw as int),
        views[12] == milli_chars(row.dr_achieved_kw as int),
        views[13] == bool_chars(row.limit_ok),
    ensures
        join_comma(views) == row_chars(row),
{
    assert(join_comma(views.take(1)) =~= views[0]) by {
        assert(views.take(1).len() == 1);
        assert(views.take(1)[0] == views[0]);
    }
    assert(views.take(2).drop_last() =~= views.take(1));
    assert(views.take(2).last() == views[1]);
    assert(join_comma(views.take(2)) == join_comma(views.take(1)) + ","@ + views[1]);
    assert(views.take(3).drop_last() =~= views.take(2));
    assert(views.take(3).last() == views[2]);
    assert(join_comma(views.take(3)) == join_comma(views.take(2)) + ","@ + views[2]);
    assert(views.take(4).drop_last() =~= views.take(3));
    assert(views.take(4).last() == views[3]);
    assert(join_comma(views.take(4)) == join_comma(views.take(3)) + ","@ + views[3]);
    assert(views.take(5).drop_last() =~= views.take(4));
    assert(views.take(5).last() == views[4]);
    assert(join_comma(views.take(5)) == join_comma(views.take(4)) + ","@ + views[4]);
    assert(views.take(6).drop_last() =~= views.take(5));
    assert(views.take(6).last() == views[5]);
    assert(join_comma(views.take(6)) == join_comma(views.take(5)) + ","@ + views[5]);
    assert(views.take(7).drop_last() =~= views.take(6));
    assert(views.take(7).last() == views[6]);
    assert(join_comma(views.take(7)) == join_comma(views.take(6)) + ","@ + views[6]);
    assert(views.take(8).drop_last() =~= views.take(7));
    assert(views.take(8).last() == views[7]);
    assert(join_comma(views.take(8)) == join_comma(views.take(7)) + ","@ + views[7]);
    assert(views.take(9).drop_last() =~= views.take(8));
    assert(views.take(9).last() == views[8]);
    assert(join_comma(views.take(9)) == join_comma(views.take(8)) + ","@ + views[8]);
    assert(views.take(10).drop_last() =~= views.take(9));
    assert(views.take(10).last() == views[9]);
    assert(join_comma(views.take(10)) == join_comma(views.take(9)) + ","@ + views[9]);
    assert(views.take(11).drop_last() =~= views.take(10));
    assert(views.take(11).last() == views[10]);
    assert(join_comma(views.take(11)) == join_comma(views.take(10)) + ","@ + views[10]);
    assert(views.take(12).drop_last() =~= views.take(11));
    assert(views.take(12).last() == views[11]);
    assert(join_comma(views.take(12)) == join_comma(views.take(11)) + ","@ + views[11]);
    assert(views.take(13).drop_last() =~= views.take(12));
    assert(views.take(13).last() == views[12]);
    assert(join_comma(views.take(13)) == join_comma(views.take(12)) + ","@ + views[12]);
    assert(views.take(14).drop_last() =~= views.take(13));
    assert(views.take(14).last() == views[13]);
    assert(join_comma(views.take(14)) == join_comma(views.take(13)) + ","@ + views[13]);
    assert(views.take(14) =~= views);
    assert(join_comma(views) =~= row_chars(row));
}

} // verus!
