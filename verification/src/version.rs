//! Runtime version descriptors and the version diff engine.

use vstd::prelude::*;
use vstd::assert_seqs_equal;
use crate::bytes::{bytes_eq, slice_to_vec};

verus! {

/// The six-field record identifying a runtime build: two name identifiers
/// and four unsigned version counters.
#[derive(Clone, Debug)]
pub struct RuntimeVersion {
    pub spec_name: Vec<u8>,
    pub impl_name: Vec<u8>,
    pub authoring_version: u32,
    pub spec_version: u32,
    pub impl_version: u32,
    pub transaction_version: u32,
}

/// The mathematical value of a [`RuntimeVersion`].
#[verifier::ext_equal]
pub struct RuntimeVersionView {
    pub spec_name: Seq<u8>,
    pub impl_name: Seq<u8>,
    pub authoring_version: u32,
    pub spec_version: u32,
    pub impl_version: u32,
    pub transaction_version: u32,
}

impl View for RuntimeVersion {
    type V = RuntimeVersionView;

    open spec fn view(&self) -> RuntimeVersionView {
        RuntimeVersionView {
            spec_name: self.spec_name@,
            impl_name: self.impl_name@,
            authoring_version: self.authoring_version,
            spec_version: self.spec_version,
            impl_version: self.impl_version,
            transaction_version: self.transaction_version,
        }
    }
}

/// The three descriptors of one comparison session: the live chain's, the
/// upstream reference's, and the local build's.
#[derive(Clone, Debug)]
pub struct RuntimeVersions {
    pub chain_runtime_version: RuntimeVersion,
    pub github_runtime_version: RuntimeVersion,
    pub local_runtime_version: RuntimeVersion,
}

/// One of the six fields of a runtime version descriptor, in declared order.
#[derive(Clone, Copy, Debug, PartialEq, Eq, Structural)]
pub enum VersionField {
    SpecName,
    ImplName,
    AuthoringVersion,
    SpecVersion,
    ImplVersion,
    TransactionVersion,
}

/// One differing field, with both sides' values.
#[derive(Clone, Debug)]
pub enum FieldDiff {
    Name(VersionField, Vec<u8>, Vec<u8>),
    Number(VersionField, u32, u32),
}

/// The mathematical value of a [`FieldDiff`].
#[verifier::ext_equal]
pub enum FieldDiffView {
    Name(VersionField, Seq<u8>, Seq<u8>),
    Number(VersionField, u32, u32),
}

impl View for FieldDiff {
    type V = FieldDiffView;

    open spec fn view(&self) -> FieldDiffView {
        match self {
            FieldDiff::Name(f, l, r) => FieldDiffView::Name(*f, l@, r@),
            FieldDiff::Number(f, l, r) => FieldDiffView::Number(*f, *l, *r),
        }
    }
}

/// The fields on which two descriptors differ, with both values each, in
/// declared field order.
#[derive(Clone, Debug)]
pub struct VersionDiff {
    pub fields: Vec<FieldDiff>,
}

/// The mathematical values of a list of field diffs.
pub open spec fn fields_view(fs: Seq<FieldDiff>) -> Seq<FieldDiffView> {
    fs.map_values(|f: FieldDiff| f@)
}

/// The differing fields of two descriptors: the two name fields first, then
/// the four version counters, each in declared order and only when the two
/// sides disagree.
pub open spec fn version_diffs(a: RuntimeVersionView, b: RuntimeVersionView) -> Seq<FieldDiffView> {
    (if a.spec_name != b.spec_name {
        seq![FieldDiffView::Name(VersionField::SpecName, a.spec_name, b.spec_name)]
    } else {
        Seq::empty()
    }) + (if a.impl_name != b.impl_name {
        seq![FieldDiffView::Name(VersionField::ImplName, a.impl_name, b.impl_name)]
    } else {
        Seq::empty()
    }) + (if a.authoring_version != b.authoring_version {
        seq![FieldDiffView::Number(VersionField::AuthoringVersion, a.authoring_version, b.authoring_version)]
    } else {
        Seq::empty()
    }) + (if a.spec_version != b.spec_version {
        seq![FieldDiffView::Number(VersionField::SpecVersion, a.spec_version, b.spec_version)]
    } else {
        Seq::empty()
    }) + (if a.impl_version != b.impl_version {
        seq![FieldDiffView::Number(VersionField::ImplVersion, a.impl_version, b.impl_version)]
    } else {
        Seq::empty()
    }) + (if a.transaction_version != b.transaction_version {
        seq![FieldDiffView::Number(VersionField::TransactionVersion, a.transaction_version, b.transaction_version)]
    } else {
        Seq::empty()
    })
}

/// Two descriptors have no differing field exactly when they are equal.
pub proof fn lemma_no_diff_iff_equal(a: RuntimeVersionView, b: RuntimeVersionView)
    ensures
        version_diffs(a, b).len() == 0 <==> a =~= b,
{
}

/// Compare two descriptors field by field.
///
/// Returns the no-difference sentinel `None` exactly when all six fields
/// agree; otherwise the diff names exactly the fields that differ, with both
/// values, in declared field order.
pub fn diff_versions(a: &RuntimeVersion, b: &RuntimeVersion) -> (r: Option<VersionDiff>)
    ensures
        r is None <==> version_diffs(a@, b@).len() == 0,
        r is None <==> a@ =~= b@,
        r matches Some(d) ==> fields_view(d.fields@) == version_diffs(a@, b@),
{
    let mut fields: Vec<FieldDiff> = Vec::new();
    let ghost av = a@;
    let ghost bv = b@;

    if !bytes_eq(a.spec_name.as_slice(), b.spec_name.as_slice()) {
        fields.push(FieldDiff::Name(
            VersionField::SpecName,
            slice_to_vec(a.spec_name.as_slice()),
            slice_to_vec(b.spec_name.as_slice()),
        ));
    }
    let ghost s1 = (if av.spec_name != bv.spec_name {
        seq![FieldDiffView::Name(VersionField::SpecName, av.spec_name, bv.spec_name)]
    } else {
        Seq::<FieldDiffView>::empty()
    });
    proof {
        assert_seqs_equal!(fields_view(fields@), s1);
    }

    if !bytes_eq(a.impl_name.as_slice(), b.impl_name.as_slice()) {
        fields.push(FieldDiff::Name(
            VersionField::ImplName,
            slice_to_vec(a.impl_name.as_slice()),
            slice_to_vec(b.impl_name.as_slice()),
        ));
    }
    let ghost s2 = s1 + (if av.impl_name != bv.impl_name {
        seq![FieldDiffView::Name(VersionField::ImplName, av.impl_name, bv.impl_name)]
    } else {
        Seq::<FieldDiffView>::empty()
    });
    proof {
        assert_seqs_equal!(fields_view(fields@), s2);
    }

    if a.authoring_version != b.authoring_version {
        fields.push(FieldDiff::Number(
            VersionField::AuthoringVersion,
            a.authoring_version,
            b.authoring_version,
        ));
    }
    let ghost s3 = s2 + (if av.authoring_version != bv.authoring_version {
        seq![FieldDiffView::Number(VersionField::AuthoringVersion, av.authoring_version, bv.authoring_version)]
    } else {
        Seq::<FieldDiffView>::empty()
    });
    proof {
        assert_seqs_equal!(fields_view(fields@), s3);
    }

    if a.spec_version != b.spec_version {
        fields.push(FieldDiff::Number(
            VersionField::SpecVersion,
            a.spec_version,
            b.spec_version,
        ));
    }
    let ghost s4 = s3 + (if av.spec_version != bv.spec_version {
        seq![FieldDiffView::Number(VersionField::SpecVersion, av.spec_version, bv.spec_version)]
    } else {
        Seq::<FieldDiffView>::empty()
    });
    proof {
        assert_seqs_equal!(fields_view(fields@), s4);
    }

    if a.impl_version != b.impl_version {
        fields.push(FieldDiff::Number(
            VersionField::ImplVersion,
            a.impl_version,
            b.impl_version,
        ));
    }
    let ghost s5 = s4 + (if av.impl_version != bv.impl_version {
        seq![FieldDiffView::Number(VersionField::ImplVersion, av.impl_version, bv.impl_version)]
    } else {
        Seq::<FieldDiffView>::empty()
    });
    proof {
        assert_seqs_equal!(fields_view(fields@), s5);
    }

    if a.transaction_version != b.transaction_version {
        fields.push(FieldDiff::Number(
            VersionField::TransactionVersion,
            a.transaction_version,
            b.transaction_version,
        ));
    }
    let ghost s6 = s5 + (if av.transaction_version != bv.transaction_version {
        seq![FieldDiffView::Number(VersionField::TransactionVersion, av.transaction_version, bv.transaction_version)]
    } else {
        Seq::<FieldDiffView>::empty()
    });
    proof {
        assert_seqs_equal!(fields_view(fields@), s6);
        assert_seqs_equal!(s6, version_diffs(av, bv));
    }

    if fields.len() == 0 {
        None
    } else {
        Some(VersionDiff { fields })
    }
}

} // verus!
