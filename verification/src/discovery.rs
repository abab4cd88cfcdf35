//! The config map by which a Trino cluster is discovered.

use crate::string_map::StringMap;
use crate::trino_connection_controller::{Error, ErrorView};
use vstd::prelude::*;

verus! {

/// A config map.
#[derive(Debug)]
pub struct ConfigMap {
    pub data: Option<StringMap>,
}

impl View for ConfigMap {
    type V = Option<Map<Seq<char>, Seq<char>>>;

    open spec fn view(&self) -> Option<Map<Seq<char>, Seq<char>>> {
        match self.data {
            Some(data) => Some(data@),
            None => None,
        }
    }
}

/// The SQLAlchemy connect string that the data of a discovery config map holds, where it does.
pub open spec fn connect_string(data: Option<Map<Seq<char>, Seq<char>>>) -> Option<Seq<char>> {
    match data {
        Some(entries) if entries.contains_key("TRINO_SQLALCHEMY"@) => Some(
            entries["TRINO_SQLALCHEMY"@],
        ),
        _ => None,
    }
}

/// The connect string is what was last put under its key, whatever that holds. Entries under other
/// keys do not matter to it. It is missing exactly where there are no data or that key is absent.
pub proof fn lemma_connect_string_is_what_was_put_there(
    entries: Map<Seq<char>, Seq<char>>,
    uri: Seq<char>,
    other_key: Seq<char>,
    other: Seq<char>,
)
    ensures
        connect_string(Some(entries.insert("TRINO_SQLALCHEMY"@, uri))) == Some(uri),
        other_key != "TRINO_SQLALCHEMY"@ ==> connect_string(Some(entries.insert(other_key, other)))
            == connect_string(Some(entries)),
        connect_string(Some(entries)) is None <==> !entries.contains_key("TRINO_SQLALCHEMY"@),
        connect_string(None) is None,
{
}

/// Takes the SQLAlchemy connect string out of the discovery config map of a Trino cluster.
pub fn sqlalchemy_uri(config_map: ConfigMap) -> (res: Result<String, Error>)
    ensures
        match res {
            Ok(uri) => connect_string(config_map@) == Some(uri@),
            Err(error) => connect_string(config_map@) is None && error@
                == ErrorView::MissingTrinoConnString,
        },
{
    match config_map.data {
        Some(data) => {
            let mut data = data;
            match data.remove("TRINO_SQLALCHEMY") {
                Some(uri) => Ok(uri),
                None => Err(Error::MissingTrinoConnString),
            }
        },
        None => Err(Error::MissingTrinoConnString),
    }
}

} // verus!
