//! Which metadata the output keeps or writes: EXIF fields, the ICC profile
//! and the orientation tag.
use crate::output::{err_orientation, err_orientation_text, OutputSettings, Part, same_except};
use crate::text::push_str;
use vstd::prelude::*;

verus! {

/// Bits of the kept-metadata set.
pub const KEEP_EXIF: i32 = 1;
pub const KEEP_ICC: i32 = 8;
pub const KEEP_ALL: i32 = 31;

/// EXIF fields to write, per image file directory: pairs of tag name and
/// value, written in order, so that a later pair replaces an earlier one
/// with the same name (see `exif_map`).
#[derive(Debug, Clone, Default)]
pub struct Exif {
    pub ifd0: Option<Vec<(String, String)>>,
    pub ifd1: Option<Vec<(String, String)>>,
    pub ifd2: Option<Vec<(String, String)>>,
    pub ifd3: Option<Vec<(String, String)>>,
}

/// Options of `with_icc_profile`.
#[derive(Debug, Clone, Default)]
pub struct WithIccProfileOptions {
    /// Should the ICC profile be included in the output metadata (default true).
    pub attach: Option<bool>,
}

/// The views of name and value pairs.
pub open spec fn pairs_view(v: Seq<(String, String)>) -> Seq<(Seq<char>, Seq<char>)> {
    v.map_values(|p: (String, String)| (p.0@, p.1@))
}

/// The key under which a tag of directory `ifd` is written, as libvips
/// names EXIF fields: `exif-ifd0-Copyright`.
pub open spec fn exif_key(ifd: Seq<char>, name: Seq<char>) -> Seq<char> {
    "exif-"@ + ifd + "-"@ + name
}

/// The fields that a list of key and value pairs writes, in order: a later
/// pair replaces an earlier one with the same key.
pub open spec fn exif_map(s: Seq<(Seq<char>, Seq<char>)>) -> Map<Seq<char>, Seq<char>>
    decreases s.len(),
{
    if s.len() == 0 {
        Map::empty()
    } else {
        exif_map(s.drop_last()).insert(s.last().0, s.last().1)
    }
}

/// Writing two lists one after the other writes the fields of the first,
/// replaced where the second has the same keys.
pub proof fn lemma_exif_map_concat(a: Seq<(Seq<char>, Seq<char>)>, b: Seq<(Seq<char>, Seq<char>)>)
    ensures
        exif_map(a + b) == exif_map(a).union_prefer_right(exif_map(b)),
    decreases b.len(),
{
    if b.len() == 0 {
        assert(a + b =~= a);
        assert(exif_map(a).union_prefer_right(exif_map(b)) =~= exif_map(a));
    } else {
        lemma_exif_map_concat(a, b.drop_last());
        assert((a + b).drop_last() =~= a + b.drop_last());
        assert((a + b).last() == b.last());
        assert(exif_map(a + b) =~= exif_map(a).union_prefer_right(exif_map(b)));
    }
}

/// The EXIF entries written for the tags of one directory.
pub open spec fn exif_entries(ifd: Seq<char>, tags: Option<Vec<(String, String)>>) -> Seq<(Seq<char>, Seq<char>)> {
    match tags {
        Some(t) => pairs_view(t@).map_values(|p: (Seq<char>, Seq<char>)| (exif_key(ifd, p.0), p.1)),
        None => seq![],
    }
}

/// Each tag of a directory is written, in the order given, under the key
/// `exif-` followed by the directory's name, a dash and the tag's name,
/// with the tag's value.
pub proof fn lemma_exif_entry_keys(ifd: Seq<char>, tags: Vec<(String, String)>)
    ensures
        exif_entries(ifd, Some(tags)).len() == tags@.len(),
        forall|i: int|
            0 <= i < tags@.len() ==> #[trigger] exif_entries(ifd, Some(tags))[i] == (
                "exif-"@ + ifd + "-"@ + tags@[i].0@,
                tags@[i].1@,
            ),
{
}

/// The EXIF entries written for all four directories.
pub open spec fn exif_all(exif: Exif) -> Seq<(Seq<char>, Seq<char>)> {
    exif_entries("ifd0"@, exif.ifd0) + exif_entries("ifd1"@, exif.ifd1) + exif_entries(
        "ifd2"@,
        exif.ifd2,
    ) + exif_entries("ifd3"@, exif.ifd3)
}

/// Appends the entries for the tags of directory `ifd`.
fn push_exif(out: &mut Vec<(String, String)>, ifd: &str, tags: Option<Vec<(String, String)>>)
    requires
        ifd@ == "ifd0"@ || ifd@ == "ifd1"@ || ifd@ == "ifd2"@ || ifd@ == "ifd3"@,
    ensures
        pairs_view(final(out)@) == pairs_view(old(out)@) + exif_entries(ifd@, tags),
{
    let ghost start = pairs_view(out@);
    match tags {
        Some(t) => {
            let ghost want = exif_entries(ifd@, Some(t));
            let mut i: usize = 0;
            while i < t.len()
                invariant
                    i <= t@.len(),
                    want == pairs_view(t@).map_values(|p: (Seq<char>, Seq<char>)| (exif_key(ifd@, p.0), p.1)),
                    pairs_view(out@) == start + want.take(i as int),
                decreases t@.len() - i,
            {
                let mut key = String::new();
                push_str(&mut key, "exif-");
                push_str(&mut key, ifd);
                push_str(&mut key, "-");
                push_str(&mut key, t[i].0.as_str());
                proof {
                    reveal_strlit("exif-");
                    reveal_strlit("-");
                }
                let value = t[i].1.clone();
                let ghost before = out@;
                out.push((key, value));
                proof {
                    assert(pairs_view(out@) =~= pairs_view(before).push((out@.last().0@, out@.last().1@)));
                    assert(want.take(i as int + 1) =~= want.take(i as int).push(want[i as int]));
                }
                i += 1;
            }
            proof {
                assert(want.take(t@.len() as int) =~= want);
            }
        },
        None => {
            assert(pairs_view(out@) =~= start + seq![]);
        },
    }
}

impl OutputSettings {
    /// Keep the EXIF metadata of the input.
    pub fn keep_exif(self) -> (r: OutputSettings)
        ensures
            same_except(self, r, Part::Metadata, Part::Metadata),
            r.format_out == self.format_out,
            r.metadata.keep == self.metadata.keep | KEEP_EXIF,
            r.metadata.orientation == self.metadata.orientation,
            r.metadata.icc_profile == self.metadata.icc_profile,
            r.metadata.exif == self.metadata.exif,
            r.metadata.exif_merge == self.metadata.exif_merge,
    {
        let mut s = self;
        s.metadata.keep = s.metadata.keep | KEEP_EXIF;
        s
    }

    /// Write these EXIF fields in the output, ignoring the EXIF of the
    /// input: EXIF is kept for the output.
    pub fn with_exif(self, exif: Exif) -> (r: OutputSettings)
        ensures
            same_except(self, r, Part::Metadata, Part::Metadata),
            r.format_out == self.format_out,
            r.metadata.keep == self.metadata.keep | KEEP_EXIF,
            r.metadata.orientation == self.metadata.orientation,
            r.metadata.icc_profile == self.metadata.icc_profile,
            pairs_view(r.metadata.exif@) == pairs_view(self.metadata.exif@) + exif_all(exif),
            exif_map(pairs_view(r.metadata.exif@)) == exif_map(pairs_view(self.metadata.exif@)).union_prefer_right(
                exif_map(exif_all(exif)),
            ),
            !r.metadata.exif_merge,
    {
        let mut s = self;
        let ghost start = pairs_view(s.metadata.exif@);
        push_exif(&mut s.metadata.exif, "ifd0", exif.ifd0);
        push_exif(&mut s.metadata.exif, "ifd1", exif.ifd1);
        push_exif(&mut s.metadata.exif, "ifd2", exif.ifd2);
        push_exif(&mut s.metadata.exif, "ifd3", exif.ifd3);
        s.metadata.exif_merge = false;
        s.metadata.keep = s.metadata.keep | KEEP_EXIF;
        assert(pairs_view(s.metadata.exif@) =~= start + exif_all(exif));
        proof {
            lemma_exif_map_concat(start, exif_all(exif));
        }
        s
    }

    /// Write these EXIF fields in the output, merged into the EXIF of the
    /// input: EXIF is kept for the output.
    pub fn with_exif_merge(self, exif: Exif) -> (r: OutputSettings)
        ensures
            same_except(self, r, Part::Metadata, Part::Metadata),
            r.format_out == self.format_out,
            r.metadata.keep == self.metadata.keep | KEEP_EXIF,
            r.metadata.orientation == self.metadata.orientation,
            r.metadata.icc_profile == self.metadata.icc_profile,
            pairs_view(r.metadata.exif@) == pairs_view(self.metadata.exif@) + exif_all(exif),
            exif_map(pairs_view(r.metadata.exif@)) == exif_map(pairs_view(self.metadata.exif@)).union_prefer_right(
                exif_map(exif_all(exif)),
            ),
            r.metadata.exif_merge,
    {
        let mut s = self.with_exif(exif);
        s.metadata.exif_merge = true;
        s
    }

    /// Keep the ICC profile of the input.
    pub fn keep_icc_profile(self) -> (r: OutputSettings)
        ensures
            same_except(self, r, Part::Metadata, Part::Metadata),
            r.format_out == self.format_out,
            r.metadata.keep == self.metadata.keep | KEEP_ICC,
            r.metadata.orientation == self.metadata.orientation,
            r.metadata.icc_profile == self.metadata.icc_profile,
            r.metadata.exif == self.metadata.exif,
            r.metadata.exif_merge == self.metadata.exif_merge,
    {
        let mut s = self;
        s.metadata.keep = s.metadata.keep | KEEP_ICC;
        s
    }

    /// Transform to the ICC profile `icc` (a path or a built-in name) and
    /// attach it, unless `attach` is false.
    pub fn with_icc_profile(self, icc: &str, options: Option<WithIccProfileOptions>) -> (r: OutputSettings)
        ensures
            same_except(self, r, Part::Metadata, Part::Metadata),
            r.format_out == self.format_out,
            r.metadata.icc_profile@ == icc@,
            r.metadata.keep == if options matches Some(o) && o.attach == Some(false) {
                (self.metadata.keep | KEEP_ICC) & !KEEP_ICC
            } else {
                self.metadata.keep | KEEP_ICC
            },
            r.metadata.orientation == self.metadata.orientation,
            r.metadata.exif == self.metadata.exif,
            r.metadata.exif_merge == self.metadata.exif_merge,
    {
        let mut s = self;
        s.metadata.icc_profile = icc.to_string();
        s = s.keep_icc_profile();
        if let Some(o) = options {
            if let Some(attach) = o.attach {
                if !attach {
                    s.metadata.keep = s.metadata.keep & !KEEP_ICC;
                }
            }
        }
        s
    }

    /// Keep all metadata of the input: EXIF, XMP, IPTC, ICC and the rest.
    pub fn keep_metadata(self) -> (r: OutputSettings)
        ensures
            same_except(self, r, Part::Metadata, Part::Metadata),
            r.format_out == self.format_out,
            r.metadata.keep == KEEP_ALL,
            r.metadata.orientation == self.metadata.orientation,
            r.metadata.icc_profile == self.metadata.icc_profile,
            r.metadata.exif == self.metadata.exif,
            r.metadata.exif_merge == self.metadata.exif_merge,
    {
        let mut s = self;
        s.metadata.keep = KEEP_ALL;
        s
    }

    /// Keep all metadata, convert to sRGB and attach its profile, and write
    /// the orientation tag `orientation` (1 to 8) when given;
    /// `density_error` is the refusal, if any, of the density given beside.
    pub fn with_metadata(self, orientation: Option<i32>, density_error: Option<String>) -> (r: Result<OutputSettings, String>)
        ensures
            match orientation {
                Some(v) if !(1 <= v <= 8) => r matches Err(e) && e@ == err_orientation_text(),
                _ => match density_error {
                    Some(m) => r matches Err(e) && e@ == m@,
                    None => r matches Ok(s) && same_except(self, s, Part::Metadata, Part::Metadata)
                        && s.format_out == self.format_out
                        && s.metadata.keep == KEEP_ALL | KEEP_ICC
                        && s.metadata.icc_profile@ == "srgb"@
                        && s.metadata.orientation == match orientation {
                            Some(v) => v,
                            None => self.metadata.orientation,
                        }
                        && s.metadata.exif == self.metadata.exif
                        && s.metadata.exif_merge == self.metadata.exif_merge,
                },
            },
    {
        let mut s = self.keep_metadata();
        s = s.with_icc_profile("srgb", None);
        if let Some(v) = orientation {
            if !(1 <= v && v <= 8) {
                return Err(err_orientation());
            }
            s.metadata.orientation = v;
        }
        if let Some(e) = density_error {
            return Err(e);
        }
        Ok(s)
    }
}

} // verus!
