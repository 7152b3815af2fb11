//! Serial ports of the frame sniffer.
use vstd::prelude::*;

verus! {

/// The ports the sniffer sits between: the control software's side first,
/// then the instrument's.
pub fn get_ports() -> (r: Option<(String, String)>)
    ensures
        r matches Some((soft, leed)) && soft@ == "/dev/ttyUSB1"@ && leed@ == "/dev/ttyUSB0"@,
{
    Some(("/dev/ttyUSB1".to_owned(), "/dev/ttyUSB0".to_owned()))
}

} // verus!
