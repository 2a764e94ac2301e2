//! Names of the equipment groups.

use vstd::prelude::*;
use vstd::string::StringExecFns;

use crate::tag::AEITagData;

verus! {

/// The codes that the equipment group table names; every other code is reserved.
pub open spec fn is_named_group(code: int) -> bool {
    code == 0 || code == 1 || code == 4 || code == 5 || code == 6 || code == 8 || code == 10
        || code == 12 || code == 14 || code == 17 || code == 18 || code == 19 || code == 20
        || code == 21 || code == 24 || code == 27 || code == 28 || code == 31
}

/// The name of the equipment group whose code is `code`.
pub open spec fn group_name(code: int) -> Seq<char> {
    if code == 0 {
        "Other"@
    } else if code == 1 {
        "Railcar cover"@
    } else if code == 4 {
        "Train number tag (locomotive variable data)"@
    } else if code == 5 {
        "Locomotive"@
    } else if code == 6 {
        "End-of-train device"@
    } else if code == 8 {
        "Generator set"@
    } else if code == 10 {
        "Intermodal container"@
    } else if code == 12 {
        "Marker tags"@
    } else if code == 14 {
        "Reserved (formerly nonrevenue rail)"@
    } else if code == 17 {
        "Tractor (power)"@
    } else if code == 18 {
        "Straight truck"@
    } else if code == 19 {
        "Railcar"@
    } else if code == 20 {
        "Dolly"@
    } else if code == 21 {
        "Trailer"@
    } else if code == 24 {
        "Rail-compatible multimodal equipment"@
    } else if code == 27 {
        "Chassis"@
    } else if code == 28 {
        "Passive alarm tag"@
    } else if code == 31 {
        "Experimental use/other"@
    } else {
        "Reserved"@
    }
}

/// The group table is total: every code has a name that is not empty, and
/// every code that the table does not name is "Reserved".
pub proof fn lemma_group_names_total(code: int)
    ensures
        group_name(code).len() > 0,
        !is_named_group(code) ==> group_name(code) == "Reserved"@,
{
    reveal_strlit("Other");
    reveal_strlit("Railcar cover");
    reveal_strlit("Train number tag (locomotive variable data)");
    reveal_strlit("Locomotive");
    reveal_strlit("End-of-train device");
    reveal_strlit("Generator set");
    reveal_strlit("Intermodal container");
    reveal_strlit("Marker tags");
    reveal_strlit("Reserved (formerly nonrevenue rail)");
    reveal_strlit("Tractor (power)");
    reveal_strlit("Straight truck");
    reveal_strlit("Railcar");
    reveal_strlit("Dolly");
    reveal_strlit("Trailer");
    reveal_strlit("Rail-compatible multimodal equipment");
    reveal_strlit("Chassis");
    reveal_strlit("Passive alarm tag");
    reveal_strlit("Experimental use/other");
    reveal_strlit("Reserved");
}

impl AEITagData {
    /// The name of an equipment group code. Codes outside the table, those
    /// above 31 included, are "Reserved".
    pub fn parse_equipment_group_code(code: u8) -> (r: String)
        ensures
            r@ == group_name(code as int),
    {
        let name = match code {
            0 => "Other",
            1 => "Railcar cover",
            4 => "Train number tag (locomotive variable data)",
            5 => "Locomotive",
            6 => "End-of-train device",
            8 => "Generator set",
            10 => "Intermodal container",
            12 => "Marker tags",
            14 => "Reserved (formerly nonrevenue rail)",
            17 => "Tractor (power)",
            18 => "Straight truck",
            19 => "Railcar",
            20 => "Dolly",
            21 => "Trailer",
            24 => "Rail-compatible multimodal equipment",
            27 => "Chassis",
            28 => "Passive alarm tag",
            31 => "Experimental use/other",
            _ => "Reserved",
        };
        String::from_str(name)
    }
}

} // verus!
