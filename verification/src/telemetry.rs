//! Keys for telemetry timeseries.

use vstd::prelude::*;

verus! {

/// The key identifying one timeseries: the rendered target fields followed
/// by the rendered metric fields, in order.
pub fn timeseries_key_for(target_fields: Vec<String>, metric_fields: Vec<String>) -> (r: Vec<
    String,
>)
    ensures
        r@ == target_fields@ + metric_fields@,
{
    let mut key = target_fields;
    let mut rest = metric_fields;
    key.append(&mut rest);
    key
}

} // verus!
