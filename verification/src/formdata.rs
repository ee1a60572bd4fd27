//! Form data: a string-keyed collection of string and blob entries.

use vstd::prelude::*;
use vstd::string::StringExecFns;
use crate::cache::WrapperCache;
use crate::entries::{Entry, entries_insert, entries_map, entries_wf};

verus! {

/// One form entry: a plain string, or a blob (by wrapper handle) with a
/// filename.
pub enum FormDatum {
    StringData(String),
    BlobData { blob: usize, name: String },
}

/// The abstract shape of a form entry, over character sequences.
pub enum FormDatumView {
    StringData(Seq<char>),
    BlobData { blob: usize, name: Seq<char> },
}

/// The abstract shape of a stored entry.
pub open spec fn datum_view(d: FormDatum) -> FormDatumView {
    match d {
        FormDatum::StringData(s) => FormDatumView::StringData(s@),
        FormDatum::BlobData { blob, name } => FormDatumView::BlobData { blob, name: name@ },
    }
}

/// The form's contents: a collection of entries keyed by field name, a
/// later entry under the same name replacing the earlier one.
pub struct FormData {
    pub wrapper: WrapperCache,
    pub data: Vec<Entry<FormDatum>>,
}

/// Field names are unique.
pub open spec fn formdata_wf(f: FormData) -> bool {
    entries_wf(f.data@)
}

/// The abstract map of a form's contents.
pub open spec fn spec_formdata(f: FormData) -> Map<Seq<char>, FormDatumView> {
    entries_map(f.data@).map_values(|d: FormDatum| datum_view(d))
}

impl FormData {
    /// A fresh, empty, unwrapped form.
    pub fn new() -> (r: FormData)
        ensures
            r.wrapper.wrapper is None,
            formdata_wf(r),
            spec_formdata(r) =~= Map::<Seq<char>, FormDatumView>::empty(),
    {
        let r = FormData { wrapper: WrapperCache::new(), data: Vec::new() };
        proof {
            assert(r.data@.len() == 0);
        }
        r
    }

    /// Appends a blob entry under `name`.  Without an explicit filename
    /// the entry stores the default filename `"default"`.
    pub fn Append(&mut self, name: String, value: usize, filename: Option<String>)
        requires
            formdata_wf(*old(self)),
        ensures
            formdata_wf(*final(self)),
            spec_formdata(*final(self)) == spec_formdata(*old(self)).insert(
                name@,
                (FormDatumView::BlobData {
                    blob: value,
                    name: match filename {
                        Some(f) => f@,
                        None => "default"@,
                    },
                }),
            ),
            final(self).wrapper == old(self).wrapper,
    {
        let stored: String = match filename {
            Some(f) => f,
            None => String::from_str("default"),
        };
        entries_insert(
            &mut self.data,
            name,
            FormDatum::BlobData { blob: value, name: stored },
        );
        proof {
            assert(spec_formdata(*self) =~= spec_formdata(*old(self)).insert(
                name@,
                (FormDatumView::BlobData {
                    blob: value,
                    name: match filename {
                        Some(f) => f@,
                        None => "default"@,
                    },
                }),
            ));
        }
    }

    /// Appends a plain string entry under `name`.
    pub fn Append_(&mut self, name: String, value: String)
        requires
            formdata_wf(*old(self)),
        ensures
            formdata_wf(*final(self)),
            spec_formdata(*final(self)) == spec_formdata(*old(self)).insert(
                name@,
                FormDatumView::StringData(value@),
            ),
            final(self).wrapper == old(self).wrapper,
    {
        entries_insert(&mut self.data, name, FormDatum::StringData(value));
        proof {
            assert(spec_formdata(*self) =~= spec_formdata(*old(self)).insert(
                name@,
                FormDatumView::StringData(value@),
            ));
        }
    }
}

} // verus!
