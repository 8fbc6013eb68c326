//! The `.gitignore` flow: resolve the selection — an explicit template name
//! looked up exactly, or the items an external picker chose — concatenate
//! the selected templates' contents in selection order, and decide the
//! target file's new contents under the safe-write policy.

use vstd::prelude::*;
use crate::catalog::{items_view, NotFoundError, SelectionItem, TemplateCatalog};
use crate::writer::{
    mode_of, spec_existing, spec_mode, spec_write_outcome, write_outcome, ConflictingFlags,
};

verus! {

/// Options of one `.gitignore` run, as the caller supplies them.
pub struct GitIgnoreOptions {
    /// Add the selection to the end of an existing file instead of leaving
    /// it untouched.
    pub append: bool,
    /// The destination directory that holds (or will hold) the `.gitignore`.
    pub dest: String,
    /// An explicit template name; `None` delegates to the interactive picker.
    pub name: Option<String>,
    /// Replace an existing file's contents instead of leaving it untouched.
    pub overwrite: bool,
}

/// The `.gitignore` flow.
pub struct GitIgnore;

/// The selected items' contents, concatenated in selection order.
pub open spec fn spec_concat(items: Seq<(Seq<char>, Seq<char>)>) -> Seq<char>
    decreases items.len(),
{
    if items.len() == 0 {
        Seq::<char>::empty()
    } else {
        spec_concat(items.drop_last()) + items.last().1
    }
}

/// Concatenation preserves selection order: a selection of two items yields
/// the first item's contents followed by the second's, never the reverse.
pub proof fn lemma_concat_pair(a: (Seq<char>, Seq<char>), b: (Seq<char>, Seq<char>))
    ensures
        spec_concat(seq![a, b]) == a.1 + b.1,
{
    let pair = seq![a, b];
    let single = seq![a];
    let none = Seq::<(Seq<char>, Seq<char>)>::empty();
    assert(spec_concat(none) == Seq::<char>::empty());
    assert(single.drop_last() =~= none);
    assert(single.last() == a);
    assert(spec_concat(single) == spec_concat(none) + a.1);
    assert(spec_concat(single) =~= a.1);
    assert(pair.drop_last() =~= single);
    assert(pair.last() == b);
    assert(spec_concat(pair) == spec_concat(single) + b.1);
}

/// Why a `.gitignore` run failed before anything was written.
#[derive(Debug)]
pub enum GitIgnoreError {
    /// The explicitly requested template name is not in the catalog.
    NotFound(NotFoundError),
    /// The overwrite and append flags were both set.
    Conflict(ConflictingFlags),
}

impl GitIgnore {
    /// Concatenates the selected templates' contents, in selection order.
    pub fn combined(data: &Vec<SelectionItem>) -> (contents: String)
        ensures
            contents@ == spec_concat(items_view(data@)),
    {
        let dv = Ghost(items_view(data@));
        let mut contents = String::new();
        for i in 0..data.len()
            invariant
                dv@ == items_view(data@),
                contents@ == spec_concat(dv@.take(i as int)),
        {
            contents.append(data[i].content.as_str());
            proof {
                assert(dv@.take(i + 1).drop_last() =~= dv@.take(i as int));
                assert(dv@.take(i + 1).last() == data@[i as int]@);
            }
        }
        proof {
            assert(dv@.take(data@.len() as int) =~= dv@);
        }
        contents
    }

    /// The write step: concatenates the selection and applies the safe-write
    /// policy to the target's current contents (`None` where the file does
    /// not exist). Returns the file's new full contents and whether on-disk
    /// state changes; rejects a run that sets both overwrite and append.
    pub fn write(opts: &GitIgnoreOptions, data: &Vec<SelectionItem>, existing: &Option<String>) -> (result:
        Result<(String, bool), ConflictingFlags>)
        ensures
            match result {
                Ok(outcome) => !(opts.overwrite && opts.append) && (outcome.0@, outcome.1)
                    == spec_write_outcome(
                    spec_existing(*existing),
                    spec_concat(items_view(data@)),
                    spec_mode(opts.overwrite, opts.append),
                ),
                Err(_) => opts.overwrite && opts.append,
            },
    {
        let mode = match mode_of(opts.overwrite, opts.append) {
            Ok(mode) => mode,
            Err(conflict) => {
                return Err(conflict);
            },
        };
        let contents = Self::combined(data);
        Ok(write_outcome(existing, &contents, &mode))
    }

    /// The decision core of one `.gitignore` run. Where `opts.name` holds an
    /// explicit template name, the selection is its exact match in the
    /// catalog; otherwise it is `picked`, the items the external interactive
    /// picker chose. The selection's contents, concatenated in order, then go
    /// through the safe-write policy against the target's current contents.
    /// Nothing is written here: the caller replaces the file with the
    /// returned contents exactly when the returned flag says state changed.
    pub fn exec(
        opts: &GitIgnoreOptions,
        catalog: &TemplateCatalog,
        picked: &Vec<SelectionItem>,
        existing: &Option<String>,
    ) -> (result: Result<(String, bool), GitIgnoreError>)
        ensures
            match result {
                Ok(outcome) => !(opts.overwrite && opts.append) && exists|sel: Seq<
                    (Seq<char>, Seq<char>),
                >|
                    {
                        &&& match opts.name {
                            Some(name) => sel.len() == 1 && sel[0].0 == name@ && exists|i: int|
                                0 <= i < catalog@.len() && catalog@[i] == sel[0],
                            None => sel == items_view(picked@),
                        }
                        &&& (outcome.0@, outcome.1) == spec_write_outcome(
                            spec_existing(*existing),
                            spec_concat(sel),
                            spec_mode(opts.overwrite, opts.append),
                        )
                    },
                Err(GitIgnoreError::NotFound(err)) => {
                    &&& opts.name is Some
                    &&& forall|i: int|
                        0 <= i < catalog@.len() ==> (#[trigger] catalog@[i]).0 != opts.name->0@
                    &&& err.name@ == opts.name->0@
                    &&& crate::catalog::strings_view(err.available@) == crate::catalog::spec_names(
                        catalog@,
                    )
                },
                Err(GitIgnoreError::Conflict(_)) => opts.overwrite && opts.append,
            },
    {
        let data: Vec<SelectionItem> = match &opts.name {
            Some(name) => {
                match crate::catalog::select_exact(catalog, name) {
                    Ok(item) => {
                        let mut one = Vec::new();
                        one.push(item);
                        one
                    },
                    Err(err) => {
                        return Err(GitIgnoreError::NotFound(err));
                    },
                }
            },
            None => crate::catalog::clone_items(picked),
        };
        match Self::write(opts, &data, existing) {
            Ok(outcome) => {
                proof {
                    let sel = items_view(data@);
                    if opts.name is Some {
                        assert(sel[0] == data@[0]@);
                    }
                }
                Ok(outcome)
            },
            Err(conflict) => Err(GitIgnoreError::Conflict(conflict)),
        }
    }
}

} // verus!
