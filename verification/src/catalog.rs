//! The template catalog: decoding the raw JSON payload (remote response or
//! cached copy), filtering it into the in-memory name-to-contents mapping,
//! and exact-name selection against it.

use vstd::prelude::*;
use vstd::string::StringExecFns;

verus! {

/// One row of the raw catalog as decoded from the JSON payload: the
/// template's name and, where the upstream object carried a string
/// `contents` field, that field's value.
#[derive(Debug)]
pub struct RawEntry {
    pub name: String,
    pub contents: Option<String>,
}

impl View for RawEntry {
    type V = (Seq<char>, Option<Seq<char>>);

    open spec fn view(&self) -> Self::V {
        (
            self.name@,
            match self.contents {
                Some(c) => Some(c@),
                None => None,
            },
        )
    }
}

/// One selected template: its name and its full contents.
#[derive(Debug)]
pub struct SelectionItem {
    pub name: String,
    pub content: String,
}

impl View for SelectionItem {
    type V = (Seq<char>, Seq<char>);

    open spec fn view(&self) -> Self::V {
        (self.name@, self.content@)
    }
}

/// The views of a sequence of raw rows.
pub open spec fn raw_rows_view(rows: Seq<RawEntry>) -> Seq<(Seq<char>, Option<Seq<char>>)> {
    rows.map_values(|e: RawEntry| e@)
}

/// The views of a sequence of selection items.
pub open spec fn items_view(items: Seq<SelectionItem>) -> Seq<(Seq<char>, Seq<char>)> {
    items.map_values(|it: SelectionItem| it@)
}

/// The views of a sequence of strings.
pub open spec fn strings_view(names: Seq<String>) -> Seq<Seq<char>> {
    names.map_values(|s: String| s@)
}

/// The in-memory catalog: a mapping from template name to template contents,
/// immutable for the rest of the run once constructed.
#[derive(Debug)]
pub struct TemplateCatalog {
    pub entries: Vec<SelectionItem>,
}

impl View for TemplateCatalog {
    type V = Seq<(Seq<char>, Seq<char>)>;

    open spec fn view(&self) -> Self::V {
        items_view(self.entries@)
    }
}

impl TemplateCatalog {
    /// Catalog invariant: every template name occurs at most once.
    pub open spec fn wf(&self) -> bool {
        forall|i: int, j: int|
            #![trigger self@[i], self@[j]]
            0 <= i < j < self@.len() ==> self@[i].0 != self@[j].0
    }
}

/// What the raw catalog payload decodes to: one row per key of the top-level
/// JSON object, each carrying the value's string `contents` field where it
/// has one; `None` where the payload is not a JSON object.
pub uninterp spec fn decoded_catalog(bytes: Seq<u8>) -> Option<
    Seq<(Seq<char>, Option<Seq<char>>)>,
>;

/// Relies on serde_json (`from_slice`, `Value::as_object`, `Value::get`,
/// the `Value::String` variant) to decode the raw catalog payload: one row
/// per key of the top-level object — keys are unique in a `serde_json::Map`
/// — with the value's `contents` field where that field is a string.
#[verifier::external_body]
fn decode_entries(bytes: &Vec<u8>) -> (rows: Option<Vec<RawEntry>>)
    ensures
        rows is Some <==> decoded_catalog(bytes@) is Some,
        rows is Some ==> raw_rows_view(rows->Some_0@) == decoded_catalog(bytes@)->Some_0,
        rows is Some ==> forall|i: int, j: int|
            #![trigger rows->Some_0@[i], rows->Some_0@[j]]
            0 <= i < j < rows->Some_0@.len() ==> rows->Some_0@[i].name@
                != rows->Some_0@[j].name@,
{
    let value: serde_json::Value = match serde_json::from_slice(bytes.as_slice()) {
        Ok(v) => v,
        Err(_) => return None,
    };
    let mut rows = Vec::new();
    for (name, item) in value.as_object()? {
        let contents = match item.get("contents") {
            Some(serde_json::Value::String(s)) => Some(s.clone()),
            _ => None,
        };
        rows.push(RawEntry { name: name.clone(), contents });
    }
    Some(rows)
}

/// The catalog a sequence of raw rows parses to: rows with a `contents`
/// field become entries, in order; rows without one are silently dropped.
pub open spec fn spec_parse(rows: Seq<(Seq<char>, Option<Seq<char>>)>) -> Seq<
    (Seq<char>, Seq<char>),
>
    decreases rows.len(),
{
    if rows.len() == 0 {
        Seq::empty()
    } else {
        let parsed = spec_parse(rows.drop_last());
        match rows.last().1 {
            Some(c) => parsed.push((rows.last().0, c)),
            None => parsed,
        }
    }
}

/// Every name among the parsed entries is the name of some raw row.
proof fn lemma_parse_names_from_rows(rows: Seq<(Seq<char>, Option<Seq<char>>)>)
    ensures
        forall|k: int| 0 <= k < spec_parse(rows).len() ==> exists|i: int|
            0 <= i < rows.len() && rows[i].0 == #[trigger] spec_parse(rows)[k].0,
    decreases rows.len(),
{
    if rows.len() > 0 {
        lemma_parse_names_from_rows(rows.drop_last());
        assert forall|k: int| 0 <= k < spec_parse(rows).len() implies exists|i: int|
            0 <= i < rows.len() && rows[i].0 == #[trigger] spec_parse(rows)[k].0 by {
            let parsed = spec_parse(rows.drop_last());
            if k < parsed.len() {
                let i = choose|i: int|
                    0 <= i < rows.drop_last().len() && rows.drop_last()[i].0 == parsed[k].0;
                assert(rows[i].0 == spec_parse(rows)[k].0);
            } else {
                assert(rows[rows.len() - 1].0 == spec_parse(rows)[k].0);
            }
        }
    }
}

/// Parsing keeps names unique: where the raw rows carry pairwise distinct
/// names, so do the parsed entries.
proof fn lemma_parse_distinct(rows: Seq<(Seq<char>, Option<Seq<char>>)>)
    requires
        forall|i: int, j: int|
            #![trigger rows[i], rows[j]]
            0 <= i < j < rows.len() ==> rows[i].0 != rows[j].0,
    ensures
        forall|i: int, j: int|
            #![trigger spec_parse(rows)[i], spec_parse(rows)[j]]
            0 <= i < j < spec_parse(rows).len() ==> spec_parse(rows)[i].0 != spec_parse(
                rows,
            )[j].0,
    decreases rows.len(),
{
    if rows.len() > 0 {
        let butlast = rows.drop_last();
        lemma_parse_distinct(butlast);
        lemma_parse_names_from_rows(butlast);
        let parsed = spec_parse(butlast);
        assert forall|i: int, j: int|
            #![trigger spec_parse(rows)[i], spec_parse(rows)[j]]
            0 <= i < j < spec_parse(rows).len() implies spec_parse(rows)[i].0 != spec_parse(
            rows,
        )[j].0 by {
            if j >= parsed.len() {
                // The last parsed entry carries the last row's name, which
                // differs from every earlier row's name.
                let m = choose|m: int|
                    0 <= m < butlast.len() && butlast[m].0 == parsed[i].0;
                assert(rows[m].0 != rows[rows.len() - 1].0);
            }
        }
    }
}

/// Parses decoded raw rows into the catalog: exactly the rows that carry a
/// `contents` field become entries, in row order.
pub fn parse(rows: &Vec<RawEntry>) -> (catalog: TemplateCatalog)
    ensures
        catalog@ == spec_parse(raw_rows_view(rows@)),
{
    let rv = Ghost(raw_rows_view(rows@));
    let mut entries: Vec<SelectionItem> = Vec::new();
    for i in 0..rows.len()
        invariant
            rv@ == raw_rows_view(rows@),
            items_view(entries@) == spec_parse(rv@.take(i as int)),
    {
        proof {
            assert(rv@.take(i + 1).drop_last() =~= rv@.take(i as int));
            assert(rv@.take(i + 1).last() == rows@[i as int]@);
        }
        match &rows[i].contents {
            Some(c) => {
                let item = SelectionItem { name: rows[i].name.clone(), content: c.clone() };
                entries.push(item);
                proof {
                    assert(items_view(entries@) =~= spec_parse(rv@.take(i + 1)));
                }
            },
            None => {
                proof {
                    assert(items_view(entries@) == spec_parse(rv@.take(i + 1)));
                }
            },
        }
    }
    proof {
        assert(rv@.take(rows@.len() as int) =~= rv@);
    }
    TemplateCatalog { entries }
}

/// Why obtaining the catalog failed; each kind is reported with its own
/// diagnostic and none is retried.
#[derive(Clone, Copy, Debug)]
pub enum FetchError {
    /// The remote endpoint was unreachable or answered with a failure.
    Network,
    /// The cache file could not be read, or its metadata was unreadable
    /// where the file was present.
    CacheIo,
    /// The payload — remote response or cached copy — is not a JSON object.
    Parse,
}

impl FetchError {
    /// The diagnostic line for this failure kind.
    pub fn message(&self) -> (msg: String)
        ensures
            *self is Network ==> msg@ == "network error: could not fetch the remote template catalog"@,
            *self is CacheIo ==> msg@ == "cache error: could not read the local catalog cache"@,
            *self is Parse ==> msg@ == "parse error: the catalog payload is not a JSON object"@,
    {
        match self {
            FetchError::Network => String::from_str(
                "network error: could not fetch the remote template catalog",
            ),
            FetchError::CacheIo => String::from_str(
                "cache error: could not read the local catalog cache",
            ),
            FetchError::Parse => String::from_str(
                "parse error: the catalog payload is not a JSON object",
            ),
        }
    }
}

/// Turns a raw catalog payload — the verbatim remote response body or the
/// cached copy of it — into the in-memory catalog. Succeeds exactly when the
/// payload decodes as a JSON object; the catalog then holds, in order, the
/// rows that carry a string `contents` field, and its names are unique.
pub fn get(bytes: &Vec<u8>) -> (result: Result<TemplateCatalog, FetchError>)
    ensures
        match result {
            Ok(catalog) => decoded_catalog(bytes@) is Some && catalog@ == spec_parse(
                decoded_catalog(bytes@)->Some_0,
            ) && catalog.wf(),
            Err(err) => decoded_catalog(bytes@) is None && err is Parse,
        },
{
    match decode_entries(bytes) {
        Some(rows) => {
            let catalog = parse(&rows);
            proof {
                lemma_parse_distinct(raw_rows_view(rows@));
            }
            Ok(catalog)
        },
        None => Err(FetchError::Parse),
    }
}

/// The names of the catalog's entries, in catalog order.
pub open spec fn spec_names(catalog: Seq<(Seq<char>, Seq<char>)>) -> Seq<Seq<char>> {
    catalog.map_values(|e: (Seq<char>, Seq<char>)| e.0)
}

/// `parts` joined with `sep` between consecutive elements.
pub open spec fn spec_join(parts: Seq<Seq<char>>, sep: Seq<char>) -> Seq<char>
    decreases parts.len(),
{
    if parts.len() == 0 {
        Seq::empty()
    } else if parts.len() == 1 {
        parts[0]
    } else {
        spec_join(parts.drop_last(), sep) + sep + parts.last()
    }
}

/// Joins the given names with the separator between consecutive names.
pub fn join_names(names: &Vec<String>, sep: &str) -> (joined: String)
    ensures
        joined@ == spec_join(strings_view(names@), sep@),
{
    let nv = Ghost(strings_view(names@));
    let mut joined = String::new();
    for i in 0..names.len()
        invariant
            nv@ == strings_view(names@),
            joined@ == spec_join(nv@.take(i as int), sep@),
    {
        if i > 0 {
            joined.append(sep);
        }
        joined.append(names[i].as_str());
        proof {
            assert(nv@.take(i + 1).drop_last() =~= nv@.take(i as int));
            assert(nv@.take(i + 1).last() == names@[i as int]@);
        }
    }
    proof {
        assert(nv@.take(names@.len() as int) =~= nv@);
    }
    joined
}

/// Clones a selection item by item, preserving order.
pub fn clone_items(items: &Vec<SelectionItem>) -> (copies: Vec<SelectionItem>)
    ensures
        items_view(copies@) == items_view(items@),
{
    let mut copies: Vec<SelectionItem> = Vec::new();
    for i in 0..items.len()
        invariant
            copies@.len() == i as int,
            items_view(copies@) == items_view(items@).take(i as int),
    {
        let prev = Ghost(copies@);
        copies.push(SelectionItem { name: items[i].name.clone(), content: items[i].content.clone() });
        proof {
            let iv = items_view(items@);
            assert forall|k: int| 0 <= k < i + 1 implies items_view(copies@)[k] == iv.take(i + 1)[k] by {
                assert(items_view(copies@)[k] == copies@[k]@);
                assert(iv[k] == items@[k]@);
                if k < i {
                    assert(copies@[k] == prev@[k]);
                    assert(items_view(prev@)[k] == iv.take(i as int)[k]);
                }
            }
            assert(items_view(copies@) =~= iv.take(i + 1));
        }
    }
    proof {
        assert(items_view(items@).take(items@.len() as int) =~= items_view(items@));
    }
    copies
}

/// The requested template name is absent from the catalog. Carries the name
/// and the full list of available names so the caller can retry.
#[derive(Debug)]
pub struct NotFoundError {
    pub name: String,
    pub available: Vec<String>,
}

impl NotFoundError {
    /// The human-readable diagnostic: names the missing template and
    /// enumerates every available name, comma-joined.
    pub fn message(&self) -> (msg: String)
        ensures
            msg@ == "gitignore template for `"@ + self.name@ + "` not found, available:\n "@
                + spec_join(strings_view(self.available@), ", "@),
    {
        let mut msg = String::from_str("gitignore template for `");
        msg.append(self.name.as_str());
        msg.append("` not found, available:\n ");
        let joined = join_names(&self.available, ", ");
        msg.append(joined.as_str());
        msg
    }
}

/// Exact, case-sensitive lookup of one template name in the catalog. On a
/// hit, returns the matching catalog entry; on a miss, fails with an error
/// that carries the requested name and every available name, in order.
pub fn select_exact(catalog: &TemplateCatalog, name: &String) -> (result: Result<
    SelectionItem,
    NotFoundError,
>)
    ensures
        match result {
            Ok(item) => item.name@ == name@ && exists|i: int|
                0 <= i < catalog@.len() && catalog@[i] == item@,
            Err(err) => (forall|i: int| 0 <= i < catalog@.len() ==> (#[trigger] catalog@[i]).0
                != name@) && err.name@ == name@ && strings_view(err.available@) == spec_names(catalog@),
        },
{
    for i in 0..catalog.entries.len()
        invariant
            forall|k: int| 0 <= k < i ==> (#[trigger] catalog@[k]).0 != name@,
    {
        if catalog.entries[i].name == *name {
            let item = SelectionItem {
                name: catalog.entries[i].name.clone(),
                content: catalog.entries[i].content.clone(),
            };
            proof {
                assert(catalog@[i as int] == item@);
            }
            return Ok(item);
        }
    }
    let mut available: Vec<String> = Vec::new();
    for i in 0..catalog.entries.len()
        invariant
            available@.len() == i as int,
            strings_view(available@) == spec_names(catalog@).take(i as int),
    {
        let prev = Ghost(available@);
        available.push(catalog.entries[i].name.clone());
        proof {
            let sn = spec_names(catalog@);
            assert forall|k: int| 0 <= k < i + 1 implies strings_view(available@)[k] == sn.take(
                i + 1,
            )[k] by {
                assert(strings_view(available@)[k] == available@[k]@);
                assert(sn[k] == catalog@[k].0);
                assert(catalog@[k] == catalog.entries@[k]@);
                if k < i {
                    assert(available@[k] == prev@[k]);
                    assert(strings_view(prev@)[k] == sn.take(i as int)[k]);
                }
            }
            assert(strings_view(available@) =~= sn.take(i + 1));
        }
    }
    proof {
        assert(spec_names(catalog@).take(catalog@.len() as int) =~= spec_names(catalog@));
    }
    Err(NotFoundError { name: name.clone(), available })
}

} // verus!
