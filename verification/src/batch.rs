//! The recipients of one batch, read from its file.
//!
//! A batch file is a JSON array of objects. Each object names one recipient
//! by the address under its key `id`; whatever else an object holds is left
//! out. The batch is taken as a whole or not at all.

use vstd::prelude::*;
use crate::address::Address;
use crate::address::address_of_text;
use crate::address::bytes_of;
use crate::address::collect;

verus! {

/// For a JSON array, what each of its elements holds under `key`: the text,
/// where the element is an object that holds a string there, else `None`.
/// `None` for the whole where `serde_json::from_str` does not read `text` as
/// an array.
pub uninterp spec fn json_string_fields(text: Seq<char>, key: Seq<char>) -> Option<
    Seq<Option<Seq<char>>>,
>;

/// A list of optional texts as plain values.
pub open spec fn texts_of(fields: Seq<Option<String>>) -> Seq<Option<Seq<char>>> {
    fields.map_values(
        |field: Option<String>|
            match field {
                Some(text) => Some(text@),
                None => None,
            },
    )
}

/// An optional list of optional texts as plain values.
pub open spec fn fields_of(read: Option<Vec<Option<String>>>) -> Option<Seq<Option<Seq<char>>>> {
    match read {
        Some(fields) => Some(texts_of(fields@)),
        None => None,
    }
}

/// Calls `serde_json::from_str` for an array of `serde_json::Value`, and
/// takes from each element what `Value::get` finds under `key` and
/// `Value::as_str` gives as text. Trusted: the result is a function of text
/// and key alone, named `json_string_fields`.
#[verifier::external_body]
fn string_fields(text: &str, key: &str) -> (r: Option<Vec<Option<String>>>)
    ensures
        fields_of(r) == json_string_fields(text@, key@),
{
    let elements = serde_json::from_str::<Vec<serde_json::Value>>(text).ok()?;
    let field = |element: &serde_json::Value| element.get(key)?.as_str().map(String::from);
    Some(elements.iter().map(field).collect())
}

/// Why a batch is refused.
#[derive(Clone, Copy, Debug, PartialEq, Eq)]
pub enum BatchError {
    /// The file is not a JSON array.
    Malformed,
    /// The batch names nobody.
    Empty,
    /// The entry at `index`, the first such entry, is not an object with a
    /// text under `id`.
    MissingAddress { index: usize },
    /// Every entry has a text under `id`, and that of the entry at `index`,
    /// the first such entry, is not the text of an address.
    InvalidAddress { index: usize },
}

/// Whether each of the first `n` entries has a text under `id`.
pub open spec fn all_named(ids: Seq<Option<Seq<char>>>, n: int) -> bool {
    forall|i: int| 0 <= i < n ==> (#[trigger] ids[i]).is_some()
}

/// Whether the text of each of the first `n` entries is the text of an
/// address.
pub open spec fn all_valid(ids: Seq<Option<Seq<char>>>, n: int) -> bool {
    forall|i: int|
        0 <= i < n ==> (#[trigger] ids[i]).is_some() && address_of_text(ids[i].unwrap()).is_some()
}

/// Whether `addresses` are the addresses that `ids` write, one for one and
/// in the same order.
pub open spec fn addresses_of(ids: Seq<Option<Seq<char>>>, addresses: Seq<Address>) -> bool {
    &&& addresses.len() == ids.len()
    &&& forall|i: int|
        0 <= i < ids.len() ==> (#[trigger] ids[i]).is_some() && address_of_text(ids[i].unwrap())
            == Some(addresses[i]@)
}

/// Whether a batch with the entries `ids` is refused with `error`.
pub open spec fn refused(ids: Seq<Option<Seq<char>>>, error: BatchError) -> bool {
    match error {
        BatchError::Malformed => false,
        BatchError::Empty => ids.len() == 0,
        BatchError::MissingAddress { index } => {
            &&& index < ids.len()
            &&& ids[index as int].is_none()
            &&& all_named(ids, index as int)
        },
        BatchError::InvalidAddress { index } => {
            &&& all_named(ids, ids.len() as int)
            &&& index < ids.len()
            &&& address_of_text(ids[index as int].unwrap()).is_none()
            &&& all_valid(ids, index as int)
        },
    }
}

/// Whether a batch with the entries `ids` is taken, with the recipients
/// `addresses`.
pub open spec fn taken(ids: Seq<Option<Seq<char>>>, addresses: Seq<Address>) -> bool {
    &&& ids.len() > 0
    &&& all_valid(ids, ids.len() as int)
    &&& addresses_of(ids, addresses)
}

/// The recipients of a batch whose entries hold `ids` under `id`: the
/// address of each entry, in the order of the entries.
///
/// The batch is refused as a whole where it is empty, where an entry has no
/// text under `id`, or where such a text is not the text of an address. The
/// error names the first entry at fault; an entry without a text is found
/// before any text is read as an address.
pub fn recipients_of(ids: &Vec<Option<String>>) -> (r: Result<Vec<Address>, BatchError>)
    ensures
        match r {
            Ok(addresses) => taken(texts_of(ids@), addresses@),
            Err(error) => refused(texts_of(ids@), error),
        },
{
    let ghost texts = texts_of(ids@);
    if ids.len() == 0 {
        return Err(BatchError::Empty);
    }
    let mut i: usize = 0;
    while i < ids.len()
        invariant
            0 <= i <= ids.len(),
            texts == texts_of(ids@),
            all_named(texts, i as int),
        decreases ids.len() - i,
    {
        assert(texts[i as int].is_some() == ids[i as int].is_some());
        if ids[i].is_none() {
            return Err(BatchError::MissingAddress { index: i });
        }
        i = i + 1;
    }
    let mut parsed: Vec<Option<Address>> = Vec::new();
    let mut i: usize = 0;
    while i < ids.len()
        invariant
            0 <= i <= ids.len(),
            parsed.len() == i,
            texts == texts_of(ids@),
            all_named(texts, ids.len() as int),
            forall|j: int|
                0 <= j < i ==> bytes_of(#[trigger] parsed[j]) == address_of_text(texts[j].unwrap()),
        decreases ids.len() - i,
    {
        assert(texts[i as int].is_some());
        let found = match &ids[i] {
            Some(text) => Address::parse(text.as_str()),
            None => None,
        };
        parsed.push(found);
        i = i + 1;
    }
    match collect(&parsed) {
        Ok(addresses) => {
            assert forall|j: int| 0 <= j < texts.len() implies (#[trigger] texts[j]).is_some()
                && address_of_text(texts[j].unwrap()) == Some(addresses[j]@) by {
                assert(parsed[j] == Some(addresses[j]));
            }
            Ok(addresses)
        },
        Err(index) => {
            assert forall|j: int| 0 <= j < index implies (#[trigger] texts[j]).is_some()
                && address_of_text(texts[j].unwrap()).is_some() by {
                assert(parsed[j].is_some());
            }
            assert(bytes_of(parsed[index as int]).is_none());
            Err(BatchError::InvalidAddress { index })
        },
    }
}

/// Reads the recipients of a batch from the content of its file.
///
/// The content has to be a JSON array; its entries are then read as
/// `recipients_of` reads them, by what they hold under `id`.
pub fn read_batch(content: &str) -> (r: Result<Vec<Address>, BatchError>)
    ensures
        match json_string_fields(content@, "id"@) {
            None => r == Err::<Vec<Address>, BatchError>(BatchError::Malformed),
            Some(ids) => match r {
                Ok(addresses) => taken(ids, addresses@),
                Err(error) => refused(ids, error),
            },
        },
{
    match string_fields(content, "id") {
        Some(ids) => recipients_of(&ids),
        None => Err(BatchError::Malformed),
    }
}

/// A batch with an entry whose text is not the text of an address is
/// refused, whatever else it holds: no list of recipients is taken from it.
pub proof fn law_invalid_entry_refuses_batch(ids: Seq<Option<Seq<char>>>, index: int)
    requires
        0 <= index < ids.len() <= usize::MAX,
        ids[index] matches Some(text) && address_of_text(text).is_none(),
    ensures
        forall|addresses: Seq<Address>| !taken(ids, addresses),
        exists|error: BatchError| refused(ids, error),
{
    assert forall|addresses: Seq<Address>| !taken(ids, addresses) by {
        if taken(ids, addresses) {
            assert(ids[index].is_some() && address_of_text(ids[index].unwrap()).is_some());
        }
    }
    lemma_some_error(ids);
}

/// A batch that is not taken is refused with some error.
proof fn lemma_some_error(ids: Seq<Option<Seq<char>>>)
    requires
        ids.len() <= usize::MAX,
        !all_valid(ids, ids.len() as int),
    ensures
        exists|error: BatchError| refused(ids, error),
{
    if !all_named(ids, ids.len() as int) {
        let index = first_unnamed(ids, ids.len() as int);
        assert(refused(ids, BatchError::MissingAddress { index: index as usize }));
    } else {
        let index = first_invalid(ids, ids.len() as int);
        assert(refused(ids, BatchError::InvalidAddress { index: index as usize }));
    }
}

/// The first of the first `n` entries that has no text under `id`.
proof fn first_unnamed(ids: Seq<Option<Seq<char>>>, n: int) -> (index: int)
    requires
        0 <= n <= ids.len(),
        !all_named(ids, n),
    ensures
        0 <= index < n,
        ids[index].is_none(),
        all_named(ids, index),
    decreases n,
{
    if all_named(ids, n - 1) {
        n - 1
    } else {
        first_unnamed(ids, n - 1)
    }
}

/// The first of the first `n` entries whose text is not that of an address.
proof fn first_invalid(ids: Seq<Option<Seq<char>>>, n: int) -> (index: int)
    requires
        0 <= n <= ids.len(),
        all_named(ids, ids.len() as int),
        !all_valid(ids, n),
    ensures
        0 <= index < n,
        address_of_text(ids[index].unwrap()).is_none(),
        all_valid(ids, index),
    decreases n,
{
    if all_valid(ids, n - 1) {
        assert(ids[n - 1].is_some());
        n - 1
    } else {
        first_invalid(ids, n - 1)
    }
}

} // verus!
