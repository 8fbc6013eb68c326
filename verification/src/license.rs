//! The license flow: the compiled-in table of license identifiers and
//! texts, exact-name resolution of the requested identifiers against it,
//! and the per-file write step that creates one `LICENSE-<id>` file per
//! selected license under the safe-write policy.

use vstd::prelude::*;
use vstd::string::StringExecFns;
use crate::catalog::{clone_items, items_view, SelectionItem};
use crate::writer::{spec_existing, spec_mode, spec_write_outcome, write_outcome, WriteMode};

verus! {

/// Options of one license run, as the caller supplies them. Author and
/// email are accepted but never substituted into a template: they only
/// inform the advisory the caller prints after a change.
pub struct LicenseOptions {
    pub author: Option<String>,
    pub email: Option<String>,
    /// Explicit license identifiers; empty delegates to the interactive
    /// picker.
    pub names: Vec<String>,
    pub overwrite: bool,
}

/// The license flow.
pub struct License;

/// The license text the embedded table pairs with an identifier, or `None`
/// where the identifier is not in the table. Where an identifier occurs in
/// more than one table row, the rows carry one and the same text, so the
/// lookup is well-defined.
pub uninterp spec fn license_text_of(id: Seq<char>) -> Option<Seq<char>>;

/// Row `i` of the embedded license table — the identifier and full text at
/// that position — or `None` outside the table's range. The table is a
/// compiled-in constant, so the row is a function of the position alone,
/// the same in every process.
pub uninterp spec fn license_row(i: int) -> Option<(Seq<char>, Seq<char>)>;

/// Relies on `spdx::text::LICENSE_TEXTS`: the compiled-in table pairing
/// each SPDX license identifier with its full text. The result is that
/// table, row by row and in table order (`license_row`); `license_text_of`
/// is its lookup: each row's text is its identifier's text — a handful of
/// identifiers occur in two rows, both carrying the same text — and an
/// identifier outside the table has none.
#[verifier::external_body]
fn license_table() -> (table: Vec<(String, String)>)
    ensures
        forall|i: int| license_row(i) is Some <==> 0 <= i < table@.len(),
        forall|i: int|
            0 <= i < table@.len() ==> license_row(i) == Some(
                (((#[trigger] table@[i]).0)@, (table@[i].1)@),
            ),
        forall|i: int|
            0 <= i < table@.len() ==> license_text_of((#[trigger] table@[i]).0@) == Some(
                table@[i].1@,
            ),
        forall|id: Seq<char>|
            license_text_of(id) is Some ==> exists|i: int|
                0 <= i < table@.len() && (#[trigger] table@[i]).0@ == id,
{
    spdx::text::LICENSE_TEXTS.iter().map(|(id, text)| (id.to_string(), text.to_string())).collect()
}

/// A requested license identifier that the embedded table does not define.
#[derive(Debug)]
pub struct UnknownLicense {
    pub name: String,
}

impl UnknownLicense {
    /// The human-readable diagnostic naming the unknown identifier.
    pub fn message(&self) -> (msg: String)
        ensures
            msg@ == "license `"@ + self.name@ + "` not found in the embedded license table"@,
    {
        let mut msg = String::from_str("license `");
        msg.append(self.name.as_str());
        msg.append("` not found in the embedded license table");
        msg
    }
}

/// Whether any planned output file changes on-disk state.
pub open spec fn spec_any_changed(planned: Seq<PlannedWrite>) -> bool {
    exists|m: int| 0 <= m < planned.len() && (#[trigger] planned[m]).changed
}

/// One planned output file of a license run.
#[derive(Debug)]
pub struct PlannedWrite {
    /// The output file's name, `LICENSE-<id>`.
    pub file_name: String,
    /// The file's new full contents.
    pub contents: String,
    /// Whether writing them changes on-disk state.
    pub changed: bool,
}

/// The file name of one license output file: `LICENSE-` followed by the
/// license's identifier.
pub fn license_file_name(id: &String) -> (file_name: String)
    ensures
        file_name@ == "LICENSE-"@ + id@,
{
    let mut file_name = String::from_str("LICENSE-");
    file_name.append(id.as_str());
    file_name
}

/// Exact lookup of one identifier in the embedded table, handed in together
/// with the table's own guarantees.
#[verifier::loop_isolation(false)]
fn lookup(table: &Vec<(String, String)>, name: &String) -> (result: Option<SelectionItem>)
    requires
        forall|i: int|
            0 <= i < table@.len() ==> license_text_of((#[trigger] table@[i]).0@) == Some(
                table@[i].1@,
            ),
        forall|id: Seq<char>|
            license_text_of(id) is Some ==> exists|i: int|
                0 <= i < table@.len() && (#[trigger] table@[i]).0@ == id,
    ensures
        match result {
            Some(item) => item.name@ == name@ && license_text_of(name@) == Some(item.content@),
            None => license_text_of(name@) is None,
        },
{
    for i in 0..table.len()
        invariant
            forall|k: int| 0 <= k < i ==> (#[trigger] table@[k]).0@ != name@,
    {
        if table[i].0 == *name {
            return Some(
                SelectionItem { name: table[i].0.clone(), content: table[i].1.clone() },
            );
        }
    }
    None
}

impl License {
    /// All available license identifiers: one per row of the embedded
    /// table, in table order — so every call returns the same sequence —
    /// and together they are exactly the identifiers with a defined text.
    #[verifier::loop_isolation(false)]
    pub fn get() -> (ids: Vec<String>)
        ensures
            forall|k: int| license_row(k) is Some <==> 0 <= k < ids@.len(),
            forall|k: int|
                0 <= k < ids@.len() ==> (#[trigger] ids@[k])@ == license_row(k)->Some_0.0,
            forall|k: int| 0 <= k < ids@.len() ==> license_text_of((#[trigger] ids@[k])@) is Some,
            forall|id: Seq<char>|
                license_text_of(id) is Some ==> exists|k: int|
                    0 <= k < ids@.len() && (#[trigger] ids@[k])@ == id,
    {
        let table = license_table();
        let mut ids: Vec<String> = Vec::new();
        for i in 0..table.len()
            invariant
                ids@.len() == i as int,
                forall|k: int| 0 <= k < i ==> (#[trigger] ids@[k])@ == table@[k].0@,
        {
            ids.push(table[i].0.clone());
        }
        proof {
            assert forall|id: Seq<char>| license_text_of(id) is Some implies exists|k: int|
                0 <= k < ids@.len() && (#[trigger] ids@[k])@ == id by {
                let i = choose|i: int| 0 <= i < table@.len() && (#[trigger] table@[i]).0@ == id;
                assert(ids@[i]@ == id);
            }
        }
        ids
    }

    /// Resolves the run's selection. Where explicit identifiers were given,
    /// each is looked up exactly in the embedded table and pairs with its
    /// text, in request order; the first unknown identifier fails the run.
    /// Where none were given, the externally picked items are the selection.
    #[verifier::loop_isolation(false)]
    pub fn selection(opts: &LicenseOptions, picked: &Vec<SelectionItem>) -> (result: Result<
        Vec<SelectionItem>,
        UnknownLicense,
    >)
        ensures
            match result {
                Ok(sel) => if opts.names@.len() > 0 {
                    sel@.len() == opts.names@.len() && forall|k: int|
                        0 <= k < sel@.len() ==> (#[trigger] sel@[k]).name@ == opts.names@[k]@
                            && license_text_of(opts.names@[k]@) == Some(sel@[k].content@)
                } else {
                    items_view(sel@) == items_view(picked@)
                },
                Err(err) => opts.names@.len() > 0 && license_text_of(err.name@) is None
                    && exists|k: int| 0 <= k < opts.names@.len() && (#[trigger] opts.names@[k])@
                    == err.name@,
            },
    {
        if opts.names.len() == 0 {
            return Ok(clone_items(picked));
        }
        let table = license_table();
        let mut sel: Vec<SelectionItem> = Vec::new();
        for k in 0..opts.names.len()
            invariant
                sel@.len() == k as int,
                forall|m: int|
                    0 <= m < k ==> (#[trigger] sel@[m]).name@ == opts.names@[m]@
                        && license_text_of(opts.names@[m]@) == Some(sel@[m].content@),
        {
            match lookup(&table, &opts.names[k]) {
                Some(item) => {
                    sel.push(item);
                },
                None => {
                    return Err(UnknownLicense { name: opts.names[k].clone() });
                },
            }
        }
        Ok(sel)
    }

    /// The write step over the whole selection: one `LICENSE-<id>` file per
    /// item, each put through the safe-write policy against that file's
    /// current contents (`None` where it does not exist). The license flow
    /// has no append mode: the overwrite flag decides between overwrite and
    /// create-only. The second result says whether any file changes, in
    /// which case the caller owes the user the advisory to check the
    /// placeholder fields by hand.
    #[verifier::loop_isolation(false)]
    pub fn write(data: &Vec<SelectionItem>, existing: &Vec<Option<String>>, overwrite: bool) -> (result: (
        Vec<PlannedWrite>,
        bool,
    ))
        requires
            existing@.len() == data@.len(),
        ensures
            result.0@.len() == data@.len(),
            forall|k: int|
                0 <= k < data@.len() ==> {
                    let planned = #[trigger] result.0@[k];
                    planned.file_name@ == "LICENSE-"@ + data@[k].name@ && (
                    planned.contents@,
                    planned.changed,
                    ) == spec_write_outcome(
                        spec_existing(existing@[k]),
                        data@[k].content@,
                        spec_mode(overwrite, false),
                    )
                },
            result.1 <==> spec_any_changed(result.0@),
    {
        let mode = if overwrite {
            WriteMode::Overwrite
        } else {
            WriteMode::CreateOnly
        };
        let mut planned: Vec<PlannedWrite> = Vec::new();
        let mut any_changed = false;
        for k in 0..data.len()
            invariant
                planned@.len() == k as int,
                mode == spec_mode(overwrite, false),
                forall|m: int|
                    0 <= m < k ==> {
                        let p = #[trigger] planned@[m];
                        p.file_name@ == "LICENSE-"@ + data@[m].name@ && (p.contents@, p.changed)
                            == spec_write_outcome(
                            spec_existing(existing@[m]),
                            data@[m].content@,
                            spec_mode(overwrite, false),
                        )
                    },
                any_changed <==> spec_any_changed(planned@),
        {
            let file_name = license_file_name(&data[k].name);
            let outcome = write_outcome(&existing[k], &data[k].content, &mode);
            let prev = Ghost(planned@);
            planned.push(PlannedWrite { file_name, contents: outcome.0, changed: outcome.1 });
            if outcome.1 {
                any_changed = true;
            }
            proof {
                assert(planned@[k as int].changed == outcome.1);
                if any_changed && !outcome.1 {
                    let m = choose|m: int| 0 <= m < prev@.len() && (#[trigger] prev@[m]).changed;
                    assert(planned@[m] == prev@[m]);
                    assert(spec_any_changed(planned@));
                }
                assert forall|m: int|
                    0 <= m < planned@.len() && (#[trigger] planned@[m]).changed implies any_changed by {
                    if m < k {
                        assert(planned@[m] == prev@[m]);
                    }
                }
            }
        }
        (planned, any_changed)
    }
}

} // verus!
