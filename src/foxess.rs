use vstd::prelude::*;

use crate::digest::{request_signature, signature_text};
use crate::rows::SourceError;
use crate::text::{metric_names, names_of, push_text, string_views};

verus! {

/// Path of the real-time data query.
pub const REAL_QUERY_PATH: &'static str = "/op/v0/device/real/query";

/// A cloud-hosted inverter, queried for a configured list of variables.
pub struct FoxEssOpenAPISensor {
    pub name: String,
    pub api_key: String,
    pub inverter_id: String,
    pub variables: Vec<String>,
    pub url: String,
}

/// One reported data point: the variable it belongs to and its value.
pub struct DataEntry<V> {
    pub variable: String,
    pub value: V,
}

/// The variables of a result set, in order.
pub open spec fn entry_variables<V>(entries: Seq<DataEntry<V>>) -> Seq<Seq<char>> {
    entries.map_values(|e: DataEntry<V>| e.variable@)
}

/// The values of a result set, in order.
pub open spec fn entry_values<V>(entries: Seq<DataEntry<V>>) -> Seq<V> {
    entries.map_values(|e: DataEntry<V>| e.value)
}

/// How a query's answer is judged: a non-zero error code is a protocol
/// failure; anything but exactly one result set holding exactly the requested
/// variables, in the requested order, is a data-shape failure; otherwise the
/// values, in the requested order.
pub open spec fn response_spec<V>(
    variables: Seq<Seq<char>>,
    errno: u64,
    results: Seq<Seq<DataEntry<V>>>,
) -> Result<Seq<V>, SourceError> {
    if errno != 0 {
        Err(SourceError::Protocol)
    } else if results.len() != 1 || entry_variables(results[0]) != variables {
        Err(SourceError::DataShape)
    } else {
        Ok(entry_values(results[0]))
    }
}

impl FoxEssOpenAPISensor {
    pub fn new(
        name: String,
        api_key: String,
        inverter_id: String,
        variables: Vec<String>,
        url: String,
    ) -> (r: FoxEssOpenAPISensor)
        ensures
            r.name == name,
            r.api_key == api_key,
            r.inverter_id == inverter_id,
            r.variables == variables,
            r.url == url,
    {
        FoxEssOpenAPISensor { name, api_key, inverter_id, variables, url }
    }

    /// `<name>_<variable>` for each configured variable.
    pub fn get_names(&self) -> (r: Vec<String>)
        ensures
            string_views(r@) == names_of(self.name@, string_views(self.variables@)),
    {
        metric_names(self.name.as_str(), &self.variables)
    }

    /// Address of the request for `path`.
    pub fn query_url(&self, path: &str) -> (r: String)
        ensures
            r@ == self.url@ + path@,
    {
        let mut r = self.url.clone();
        push_text(&mut r, path);
        r
    }

    /// Signature of a request for `path` made at `timestamp_ms`, signed with
    /// the static API key.
    pub fn signature(&self, path: &str, timestamp_ms: u64) -> (r: String)
        ensures
            r@ == signature_text(path@, self.api_key@, timestamp_ms as nat),
    {
        request_signature(path, self.api_key.as_str(), timestamp_ms)
    }

    /// Judges a query's answer: its error code and its result sets.
    pub fn read_response<V: Copy>(&self, errno: u64, results: &Vec<Vec<DataEntry<V>>>) -> (r: Result<
        Vec<V>,
        SourceError,
    >)
        ensures
            match response_spec(string_views(self.variables@), errno, results@.map_values(
                |es: Vec<DataEntry<V>>| es@,
            )) {
                Ok(vs) => r matches Ok(row) && row@ == vs,
                Err(e) => r == Err::<Vec<V>, SourceError>(e),
            },
    {
        let ghost rs = results@.map_values(|es: Vec<DataEntry<V>>| es@);
        if errno != 0 {
            return Err(SourceError::Protocol);
        }
        if results.len() != 1 {
            return Err(SourceError::DataShape);
        }
        let entries = &results[0];
        assert(entries@ == rs[0]);
        if entries.len() != self.variables.len() {
            assert(entry_variables(rs[0]).len() != string_views(self.variables@).len());
            return Err(SourceError::DataShape);
        }
        let mut row: Vec<V> = Vec::new();
        let mut i: usize = 0;
        while i < entries.len()
            invariant
                i <= entries@.len(),
                entries@.len() == self.variables@.len(),
                rs == results@.map_values(|es: Vec<DataEntry<V>>| es@),
                rs.len() == 1,
                entries@ == rs[0],
                errno == 0,
                row@ == entry_values(entries@.subrange(0, i as int)),
                forall|j: int| 0 <= j < i ==> entries@[j].variable@ == self.variables@[j]@,
            decreases entries@.len() - i,
        {
            if entries[i].variable != self.variables[i] {
                assert(entry_variables(entries@)[i as int] != string_views(self.variables@)[i as int]);
                return Err(SourceError::DataShape);
            }
            let ghost prev = row@;
            row.push(entries[i].value);
            proof {
                assert(entry_values(entries@.subrange(0, i + 1)) =~= prev.push(entries@[i as int].value));
            }
            i = i + 1;
        }
        assert(entries@.subrange(0, entries@.len() as int) =~= entries@);
        assert(entry_variables(entries@) =~= string_views(self.variables@));
        Ok(row)
    }
}

} // verus!
