//! The laws of the canonical serialization, stated and proved once for all
//! output records.

use vstd::prelude::*;

use crate::json::json_string;
use crate::output::{CheckEmailOutput, SmtpError, SmtpErrorDesc, smtp_error_message,
    spec_description};
use crate::serialize::{
    debug_json, json_of_output, misc_field_json, mx_field_json, reachable_json, smtp_err_json,
    smtp_error_type_json, smtp_field_json, syntax_json,
};
use crate::strutil::{lemma_contains_extend, lemma_contains_itself, seq_contains_sub};

verus! {

/// `s` is a JSON object of exactly the keys `input`, `is_reachable`,
/// `misc`, `mx`, `smtp`, `syntax`, `debug`, in that order, with the given
/// field values.
pub open spec fn keyed_output_object(
    s: Seq<char>,
    v1: Seq<char>,
    v2: Seq<char>,
    v3: Seq<char>,
    v4: Seq<char>,
    v5: Seq<char>,
    v6: Seq<char>,
    v7: Seq<char>,
) -> bool {
    s == "{\"input\":"@ + v1 + ",\"is_reachable\":"@ + v2 + ",\"misc\":"@ + v3 + ",\"mx\":"@ + v4
        + ",\"smtp\":"@ + v5 + ",\"syntax\":"@ + v6 + ",\"debug\":"@ + v7 + "}"@
}

/// The JSON serialization of every output record is an object of exactly
/// the keys `input`, `is_reachable`, `misc`, `mx`, `smtp`, `syntax`,
/// `debug`, in that order.
pub proof fn lemma_output_json_key_order(o: CheckEmailOutput)
    ensures
        exists|v1: Seq<char>, v2: Seq<char>, v3: Seq<char>, v4: Seq<char>, v5: Seq<char>, v6: Seq<
            char,
        >, v7: Seq<char>|
            #[trigger] keyed_output_object(json_of_output(o), v1, v2, v3, v4, v5, v6, v7),
{
    assert(keyed_output_object(
        json_of_output(o),
        json_string(o.input@),
        reachable_json(o.is_reachable),
        misc_field_json(o.misc),
        mx_field_json(o.mx),
        smtp_field_json(o.smtp),
        syntax_json(o.syntax),
        debug_json(o.debug),
    ));
}

/// Climbs from the serialized `smtp` error object to the whole record: what
/// the `smtp` field's serialization contains, the record's serialization
/// contains too.
proof fn lemma_contains_through_output(o: CheckEmailOutput, sub: Seq<char>)
    requires
        seq_contains_sub(smtp_field_json(o.smtp), sub),
    ensures
        seq_contains_sub(json_of_output(o), sub),
{
    let before = "{\"input\":"@ + json_string(o.input@) + ",\"is_reachable\":"@ + reachable_json(
        o.is_reachable,
    ) + ",\"misc\":"@ + misc_field_json(o.misc) + ",\"mx\":"@ + mx_field_json(o.mx) + ",\"smtp\":"@;
    lemma_contains_extend(before, smtp_field_json(o.smtp), sub);
    lemma_contains_extend(before + smtp_field_json(o.smtp), ",\"syntax\":"@, sub);
    lemma_contains_extend(
        before + smtp_field_json(o.smtp) + ",\"syntax\":"@,
        syntax_json(o.syntax),
        sub,
    );
    lemma_contains_extend(
        before + smtp_field_json(o.smtp) + ",\"syntax\":"@ + syntax_json(o.syntax),
        ",\"debug\":"@,
        sub,
    );
    lemma_contains_extend(
        before + smtp_field_json(o.smtp) + ",\"syntax\":"@ + syntax_json(o.syntax) + ",\"debug\":"@,
        debug_json(o.debug),
        sub,
    );
    lemma_contains_extend(
        before + smtp_field_json(o.smtp) + ",\"syntax\":"@ + syntax_json(o.syntax) + ",\"debug\":"@
            + debug_json(o.debug),
        "}"@,
        sub,
    );
}

/// The serialized `smtp` error object carries the given description tag
/// verbatim.
proof fn lemma_description_in_smtp_err(e: SmtpError, tag: Seq<char>)
    requires
        crate::serialize::description_json(spec_description(e)) == tag,
    ensures
        seq_contains_sub(smtp_err_json(e), tag),
{
    let head = "{\"error\":{\"type\":"@ + smtp_error_type_json(e) + ",\"message\":"@ + json_string(
        smtp_error_message(e),
    ) + "}"@;
    lemma_contains_itself(tag);
    lemma_contains_extend(head, tag, tag);
    lemma_contains_extend(head + tag, "}"@, tag);
}

/// For an SMTP error whose message contains `blacklist`, the serialization
/// of the whole record includes `"description":"IpBlacklisted"` beside the
/// error object.
pub proof fn lemma_blacklist_gets_description(o: CheckEmailOutput)
    requires
        o.smtp matches Err(e) && seq_contains_sub(smtp_error_message(e), "blacklist"@),
    ensures
        seq_contains_sub(json_of_output(o), ",\"description\":\"IpBlacklisted\""@),
{
    let e = o.smtp->Err_0;
    assert(spec_description(e) == Some(SmtpErrorDesc::IpBlacklisted));
    lemma_description_in_smtp_err(e, ",\"description\":\"IpBlacklisted\""@);
    lemma_contains_through_output(o, ",\"description\":\"IpBlacklisted\""@);
}

/// For an SMTP error whose message contains `cannot find your reverse
/// hostname` and no earlier dictionary entry, the serialization of the
/// whole record includes `"description":"NeedsRDNS"` beside the error
/// object.
pub proof fn lemma_rdns_gets_description(o: CheckEmailOutput)
    requires
        o.smtp matches Err(e) && seq_contains_sub(
            smtp_error_message(e),
            "cannot find your reverse hostname"@,
        ) && !seq_contains_sub(smtp_error_message(e), "blacklist"@),
    ensures
        seq_contains_sub(json_of_output(o), ",\"description\":\"NeedsRDNS\""@),
{
    let e = o.smtp->Err_0;
    assert(spec_description(e) == Some(SmtpErrorDesc::NeedsRDNS));
    lemma_description_in_smtp_err(e, ",\"description\":\"NeedsRDNS\""@);
    lemma_contains_through_output(o, ",\"description\":\"NeedsRDNS\""@);
}

/// For an SMTP error whose message matches no dictionary entry, no
/// `description` field is emitted: the error object closes right after the
/// `error` key.
pub proof fn lemma_no_description_without_match(e: SmtpError)
    requires
        !seq_contains_sub(smtp_error_message(e), "blacklist"@),
        !seq_contains_sub(smtp_error_message(e), "cannot find your reverse hostname"@),
    ensures
        spec_description(e) is None,
        smtp_err_json(e) == "{\"error\":{\"type\":"@ + smtp_error_type_json(e) + ",\"message\":"@
            + json_string(smtp_error_message(e)) + "}}"@,
{
    reveal_strlit("}");
    reveal_strlit("}}");
    assert("}"@.len() == 1);
    assert("}}"@.len() == 2);
    let head = "{\"error\":{\"type\":"@ + smtp_error_type_json(e) + ",\"message\":"@ + json_string(
        smtp_error_message(e),
    );
    assert(smtp_err_json(e) =~= head + "}}"@);
}

} // verus!
