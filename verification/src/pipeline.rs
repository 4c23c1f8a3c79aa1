//! A pipeline's settings: its input (or the inputs it joins), geometry,
//! operations and output, and the setters that need more than one part.
use crate::icon::{decode_readable, decode_spec, IconEntry, IconEntryView};
use crate::input::{
    create_input_descriptor, default_descriptor, described, empty_buffer_text, input_error,
    no_sharp_options, CreateRaw, CreateText, Input, InputDescriptor, SharpOptions,
};
use crate::operations::{initial_operations, OperationSettings};
use crate::output::{initial_output, or, OutputSettings};
use crate::resize::{initial_geometry, GeometrySettings};
use vstd::prelude::*;

verus! {

broadcast use vstd::string::group_string_axioms;

/// The settings of one pipeline.
#[derive(Debug, Clone)]
pub struct Pipeline {
    pub input: InputDescriptor,
    /// The inputs joined into one image, when there are several.
    pub join: Vec<InputDescriptor>,
    /// The inputs whose channels are appended to the image's.
    pub join_channel_in: Vec<InputDescriptor>,
    pub geometry: GeometrySettings,
    pub operations: OperationSettings,
    pub output: OutputSettings,
}

/// A copy of optional text.
fn copy_text_option(t: &Option<String>) -> (r: Option<String>)
    ensures
        r == *t,
{
    match t {
        Some(s) => Some(s.clone()),
        None => None,
    }
}

/// A copy of text options.
fn copy_text(t: &Option<CreateText>) -> (r: Option<CreateText>)
    ensures
        r == *t,
{
    match t {
        Some(t) => Some(
            CreateText {
                text: t.text.clone(),
                font: copy_text_option(&t.font),
                fontfile: copy_text_option(&t.fontfile),
                width: t.width,
                height: t.height,
                align: t.align,
                justify: t.justify,
                dpi: t.dpi,
                rgba: t.rgba,
                spacing: t.spacing,
                wrap: t.wrap,
            },
        ),
        None => None,
    }
}

/// A copy of input options.
fn copy_options(o: &Option<SharpOptions>) -> (r: Option<SharpOptions>)
    ensures
        r == *o,
{
    match o {
        Some(o) => Some(
            SharpOptions {
                auto_orient: o.auto_orient,
                fail_on: o.fail_on,
                limit_input_pixels: o.limit_input_pixels,
                unlimited: o.unlimited,
                sequential_read: o.sequential_read,
                ignore_icc: o.ignore_icc,
                pages: o.pages,
                page: o.page,
                subifd: o.subifd,
                level: o.level,
                animated: o.animated,
                raw: o.raw,
                create: o.create,
                text: copy_text(&o.text),
                join: o.join,
            },
        ),
        None => None,
    }
}

/// The first refusal among `inputs` read with options `o`, if any.
pub open spec fn first_input_error(inputs: Seq<Input>, o: SharpOptions) -> Option<Seq<char>>
    decreases inputs.len(),
{
    if inputs.len() == 0 {
        None
    } else if input_error(inputs[0], o) is Some {
        input_error(inputs[0], o)
    } else {
        first_input_error(inputs.drop_first(), o)
    }
}

/// Inputs are accepted when each one is, and otherwise refused with the
/// refusal of the first input refused; those before it are accepted.
pub proof fn lemma_first_input_error(inputs: Seq<Input>, o: SharpOptions)
    ensures
        first_input_error(inputs, o) is None <==> forall|i: int|
            0 <= i < inputs.len() ==> #[trigger] input_error(inputs[i], o) is None,
        first_input_error(inputs, o) matches Some(m) ==> exists|k: int|
            0 <= k < inputs.len() && #[trigger] input_error(inputs[k], o) == Some(m) && forall|i: int|
                0 <= i < k ==> #[trigger] input_error(inputs[i], o) is None,
    decreases inputs.len(),
{
    if inputs.len() > 0 {
        let rest = inputs.drop_first();
        lemma_first_input_error(rest, o);
        assert forall|i: int| 0 < i < inputs.len() implies #[trigger] input_error(inputs[i], o)
            == input_error(rest[i - 1], o) by {}
        if input_error(inputs[0], o) is None {
            if first_input_error(rest, o) is Some {
                let m = first_input_error(rest, o)->Some_0;
                let k = choose|k: int|
                    0 <= k < rest.len() && #[trigger] input_error(rest[k], o) == Some(m) && forall|i: int|
                        0 <= i < k ==> #[trigger] input_error(rest[i], o) is None;
                assert(input_error(inputs[k + 1], o) == Some(m));
                assert forall|i: int| 0 <= i < k + 1 implies #[trigger] input_error(inputs[i], o) is None by {
                    if i > 0 {
                        assert(input_error(inputs[i], o) == input_error(rest[i - 1], o));
                    }
                }
            } else {
                assert forall|i: int| 0 <= i < inputs.len() implies #[trigger] input_error(inputs[i], o) is None by {
                    if i > 0 {
                        assert(input_error(inputs[i], o) == input_error(rest[i - 1], o));
                    }
                }
            }
        } else {
            assert(input_error(inputs[0], o) is Some);
        }
    }
}

/// The first image of an icon is read as the PNG it holds, or else as raw
/// pixels of four channels (BGRA order aside) at the size its directory
/// entry gives; nothing else is asked of the reader.
pub proof fn lemma_icon_read_options(e: IconEntryView)
    ensures
        e.image_type == "png"@ ==> icon_options(e).raw is None,
        e.image_type != "png"@ ==> (icon_options(e).raw matches Some(r) && r.channels == 4
            && r.width == e.width && r.height == e.height && !r.premultiplied),
        icon_options(e).create is None && icon_options(e).text is None && icon_options(e).pages is None,
{
}

/// `ds` describes each of `inputs` read with options `o`.
pub open spec fn all_described(ds: Seq<InputDescriptor>, inputs: Seq<Input>, o: SharpOptions) -> bool {
    &&& ds.len() == inputs.len()
    &&& forall|i: int| 0 <= i < ds.len() ==> described(#[trigger] ds[i], inputs[i], o)
}

/// Describes each input in turn, stopping at the first refused.
fn describe_all(inputs: Vec<Input>, options: Option<SharpOptions>) -> (r: Result<Vec<InputDescriptor>, String>)
    ensures
        match first_input_error(inputs@, or(options, no_sharp_options())) {
            Some(m) => r matches Err(e) && e@ == m,
            None => r matches Ok(ds) && all_described(ds@, inputs@, or(options, no_sharp_options())),
        },
{
    let ghost all = inputs@;
    let ghost o = or(options, no_sharp_options());
    let mut rest = inputs;
    let mut out: Vec<InputDescriptor> = Vec::new();
    while rest.len() > 0
        invariant
            all == inputs@,
            all == all.take(out@.len() as int) + rest@,
            out@.len() <= all.len(),
            o == or(options, no_sharp_options()),
            first_input_error(all, o) == first_input_error(rest@, o),
            forall|i: int| 0 <= i < out@.len() ==> described(#[trigger] out@[i], all[i], o),
        decreases rest@.len(),
    {
        let ghost before = rest@;
        let input = rest.remove(0);
        assert(before[0] == input);
        assert(before.drop_first() =~= rest@);
        assert(all.take(out@.len() as int + 1) =~= all.take(out@.len() as int).push(input));
        assert(all[out@.len() as int] == input);
        let d = create_input_descriptor(input, copy_options(&options));
        match d {
            Ok(d) => {
                out.push(d);
            },
            Err(e) => {
                assert(first_input_error(before, o) == input_error(input, o));
                return Err(e);
            },
        }
    }
    assert(all.take(out@.len() as int) =~= all);
    Ok(out)
}

/// The message when fewer than two inputs are given to join.
pub open spec fn join_count_text() -> Seq<char> {
    "Expected at least two images to join"@
}

/// The settings of a new pipeline, with nothing but its input described.
pub open spec fn fresh(p: Pipeline) -> bool {
    &&& initial_geometry(p.geometry)
    &&& initial_operations(p.operations)
    &&& initial_output(p.output)
    &&& p.join_channel_in@.len() == 0
}

/// The inputs named by files.
pub open spec fn paths(files: Seq<String>) -> Seq<Input> {
    files.map_values(|f: String| Input::Path(f))
}

/// The inputs given as buffers.
pub open spec fn buffers_input(buffers: Seq<Vec<u8>>) -> Seq<Input> {
    buffers.map_values(|b: Vec<u8>| Input::Buffer(b))
}

/// `2 <= n` inputs to join, else the message for too few.
pub open spec fn joined(r: Result<Pipeline, String>, inputs: Seq<Input>, options: Option<SharpOptions>) -> bool {
    if inputs.len() <= 1 {
        r matches Err(e) && e@ == join_count_text()
    } else {
        match first_input_error(inputs, or(options, no_sharp_options())) {
            Some(m) => r matches Err(e) && e@ == m,
            None => r matches Ok(p) && fresh(p) && default_descriptor(p.input) && all_described(
                p.join@,
                inputs,
                or(options, no_sharp_options()),
            ),
        }
    }
}

impl Pipeline {
    fn with_input(input: InputDescriptor, join: Vec<InputDescriptor>) -> (r: Pipeline)
        ensures
            fresh(r),
            r.input == input,
            r.join == join,
    {
        Pipeline {
            input,
            join,
            join_channel_in: Vec::new(),
            geometry: GeometrySettings::new(),
            operations: OperationSettings::new(),
            output: OutputSettings::new(),
        }
    }

    /// A pipeline that creates its image from `options` alone.
    pub fn new(options: SharpOptions) -> (r: Result<Pipeline, String>)
        ensures
            match input_error(Input::NoInput(), options) {
                Some(m) => r matches Err(e) && e@ == m,
                None => r matches Ok(p) && fresh(p) && p.join@.len() == 0
                    && described(p.input, Input::NoInput(), options),
            },
    {
        let d = create_input_descriptor(Input::NoInput(), Some(options))?;
        Ok(Pipeline::with_input(d, Vec::new()))
    }

    /// A pipeline that reads the file `file`.
    pub fn new_from_file(file: String, options: Option<SharpOptions>) -> (r: Result<Pipeline, String>)
        ensures
            match input_error(Input::Path(file), or(options, no_sharp_options())) {
                Some(m) => r matches Err(e) && e@ == m,
                None => r matches Ok(p) && fresh(p) && p.join@.len() == 0
                    && described(p.input, Input::Path(file), or(options, no_sharp_options())),
            },
    {
        let d = create_input_descriptor(Input::Path(file), options)?;
        Ok(Pipeline::with_input(d, Vec::new()))
    }

    /// A pipeline that reads the encoded image (or raw pixels) `buffer`.
    pub fn new_from_buffer(buffer: Vec<u8>, options: Option<SharpOptions>) -> (r: Result<Pipeline, String>)
        ensures
            match input_error(Input::Buffer(buffer), or(options, no_sharp_options())) {
                Some(m) => r matches Err(e) && e@ == m,
                None => r matches Ok(p) && fresh(p) && p.join@.len() == 0
                    && described(p.input, Input::Buffer(buffer), or(options, no_sharp_options())),
            },
    {
        let d = create_input_descriptor(Input::Buffer(buffer), options)?;
        Ok(Pipeline::with_input(d, Vec::new()))
    }

    /// A pipeline that joins the images of at least two files.
    pub fn new_from_files(files: Vec<String>, options: Option<SharpOptions>) -> (r: Result<Pipeline, String>)
        ensures
            joined(r, paths(files@), options),
    {
        if files.len() <= 1 {
            proof {
                reveal_strlit("Expected at least two images to join");
            }
            return Err("Expected at least two images to join".to_string());
        }
        let mut inputs: Vec<Input> = Vec::new();
        let mut i: usize = 0;
        while i < files.len()
            invariant
                i <= files@.len(),
                inputs@ == paths(files@).take(i as int),
            decreases files@.len() - i,
        {
            inputs.push(Input::Path(files[i].clone()));
            assert(paths(files@).take(i as int + 1) =~= paths(files@).take(i as int).push(
                Input::Path(files@[i as int]),
            ));
            i += 1;
        }
        assert(paths(files@).take(files@.len() as int) =~= paths(files@));
        let join = describe_all(inputs, options)?;
        Ok(Pipeline::with_input(InputDescriptor::default(), join))
    }

    /// A pipeline that joins the images of at least two buffers.
    pub fn new_from_buffers(buffers: Vec<Vec<u8>>, options: Option<SharpOptions>) -> (r: Result<Pipeline, String>)
        ensures
            joined(r, buffers_input(buffers@), options),
    {
        if buffers.len() <= 1 {
            proof {
                reveal_strlit("Expected at least two images to join");
            }
            return Err("Expected at least two images to join".to_string());
        }
        let ghost all = buffers@;
        let mut rest = buffers;
        let mut inputs: Vec<Input> = Vec::new();
        while rest.len() > 0
            invariant
                all == all.take(inputs@.len() as int) + rest@,
                inputs@ == buffers_input(all).take(inputs@.len() as int),
                inputs@.len() <= all.len(),
            decreases rest@.len(),
        {
            let ghost before = rest@;
            let b = rest.remove(0);
            assert(before.drop_first() =~= rest@);
            assert(all[inputs@.len() as int] == b);
            assert(buffers_input(all).take(inputs@.len() as int + 1) =~= buffers_input(all).take(
                inputs@.len() as int,
            ).push(Input::Buffer(b)));
            inputs.push(Input::Buffer(b));
        }
        assert(all.take(inputs@.len() as int) =~= all);
        assert(buffers_input(all).take(inputs@.len() as int) =~= buffers_input(all));
        let join = describe_all(inputs, options)?;
        Ok(Pipeline::with_input(InputDescriptor::default(), join))
    }
}

impl Pipeline {
    /// Rotate and mirror by the EXIF orientation of the input.
    pub fn auto_orient(self) -> (r: Pipeline)
        ensures
            r.input == (InputDescriptor { auto_orient: true, ..self.input }),
            r.join == self.join,
            r.join_channel_in == self.join_channel_in,
            r.geometry == self.geometry,
            r.operations == self.operations,
            r.output == self.output,
    {
        let mut p = self;
        p.input.auto_orient = true;
        p
    }

}


/// The message for an icon without images.
pub open spec fn no_icon_text() -> Seq<char> {
    "Not icon data found"@
}

/// How the first image of an icon is read: PNG data as is, anything else
/// as raw pixels of four channels at the entry's size.
pub open spec fn icon_options(e: IconEntryView) -> SharpOptions {
    SharpOptions {
        raw: if e.image_type == "png"@ {
            None
        } else {
            Some(
                CreateRaw {
                    width: e.width as i32,
                    height: e.height as i32,
                    channels: 4,
                    premultiplied: false,
                },
            )
        },
        ..no_sharp_options()
    }
}

/// The pipeline read from the first of the icon images `es`.
pub open spec fn icon_outcome(r: Result<Pipeline, String>, es: Seq<IconEntryView>) -> bool {
    if es.len() == 0 {
        r matches Err(e) && e@ == no_icon_text()
    } else if es[0].image_data.len() == 0 {
        r matches Err(e) && e@ == empty_buffer_text()
    } else {
        r matches Ok(p) && fresh(p) && p.join@.len() == 0 && exists|b: Vec<u8>|
            b@ == es[0].image_data && #[trigger] described(p.input, Input::Buffer(b), icon_options(es[0]))
    }
}

impl Pipeline {
    /// A pipeline that reads the first image of the decoded icon `entries`.
    pub fn from_icon(entries: Vec<IconEntry>) -> (r: Result<Pipeline, String>)
        ensures
            icon_outcome(r, crate::icon::entry_views(entries@)),
    {
        if entries.len() == 0 {
            proof {
                reveal_strlit("Not icon data found");
            }
            return Err("Not icon data found".to_string());
        }
        let ghost es = crate::icon::entry_views(entries@);
        let mut entries = entries;
        let first = entries.remove(0);
        assert(first@ == es[0]);
        let png = crate::text::str_eq(first.image_type.as_str(), "png");
        let options = if png {
            None
        } else {
            Some(
                SharpOptions {
                    auto_orient: None,
                    fail_on: None,
                    limit_input_pixels: None,
                    unlimited: None,
                    sequential_read: None,
                    ignore_icc: None,
                    pages: None,
                    page: None,
                    subifd: None,
                    level: None,
                    animated: None,
                    raw: Some(
                        CreateRaw {
                            width: first.width as i32,
                            height: first.height as i32,
                            channels: 4,
                            premultiplied: false,
                        },
                    ),
                    create: None,
                    text: None,
                    join: None,
                },
            )
        };
        assert(or(options, no_sharp_options()) == icon_options(es[0]));
        let ghost data = first.image_data;
        let r = Pipeline::new_from_buffer(first.image_data, options);
        proof {
            if r is Ok {
                assert(described(r->Ok_0.input, Input::Buffer(data), icon_options(es[0])));
            }
        }
        r
    }

    /// A pipeline that reads the first image of the icon in `buffer`; a
    /// container whose bytes run out is refused.
    pub fn from_icon_buffer(buffer: Vec<u8>) -> (r: Result<Pipeline, String>)
        ensures
            !decode_readable(buffer@) ==> (r matches Err(e) && e@ == crate::icon_check::truncated_text()),
            decode_readable(buffer@) ==> match decode_spec(buffer@) {
                Err(m) => r matches Err(e) && e@ == m,
                Ok(es) => icon_outcome(r, es),
            },
    {
        let entries = crate::icon_check::decode_checked(buffer)?;
        Pipeline::from_icon(entries)
    }
}


/// The icon sizes used unless others are given.
pub open spec fn default_icon_sizes() -> Seq<u16> {
    seq![256u16, 128, 64, 48, 32, 24, 16]
}

impl Pipeline {
    /// The sizes of the images of an icon made from this pipeline: the
    /// given ones, else 256, 128, 64, 48, 32, 24 and 16. Joined inputs are
    /// refused.
    pub fn icon_sizes(&self, sizes: Option<Vec<u16>>) -> (r: Result<Vec<u16>, String>)
        ensures
            if self.join@.len() > 0 {
                r matches Err(e) && e@ == "Multiple input is not supported"@
            } else {
                r matches Ok(v) && v@ == match sizes {
                    Some(s) => s@,
                    None => default_icon_sizes(),
                }
            },
    {
        if self.join.len() > 0 {
            proof {
                reveal_strlit("Multiple input is not supported");
            }
            return Err("Multiple input is not supported".to_string());
        }
        match sizes {
            Some(s) => Ok(s),
            None => {
                let v: Vec<u16> = vec![256, 128, 64, 48, 32, 24, 16];
                assert(v@ =~= default_icon_sizes());
                Ok(v)
            },
        }
    }
}


/// `r` is `p` with the descriptions of `inputs` read with options `o`
/// appended to the inputs whose channels are joined, unless one is refused.
pub open spec fn channels_joined(p: Pipeline, r: Result<Pipeline, String>, inputs: Seq<Input>, o: SharpOptions) -> bool {
    if inputs.len() == 0 {
        r == Ok::<Pipeline, String>(p)
    } else {
        match first_input_error(inputs, o) {
            Some(m) => r matches Err(e) && e@ == m,
            None => r matches Ok(q) && q.input == p.input && q.join == p.join && q.geometry
                == p.geometry && q.operations == p.operations && q.output == p.output
                && q.join_channel_in@.take(p.join_channel_in@.len() as int) == p.join_channel_in@
                && all_described(
                q.join_channel_in@.skip(p.join_channel_in@.len() as int),
                inputs,
                o,
            ),
        }
    }
}

impl Pipeline {
    fn append_channels(self, inputs: Vec<Input>, options: Option<SharpOptions>) -> (r: Result<Pipeline, String>)
        ensures
            channels_joined(self, r, inputs@, or(options, no_sharp_options())),
    {
        if inputs.len() == 0 {
            return Ok(self);
        }
        let ghost before = self.join_channel_in@;
        let mut p = self;
        let mut ds = describe_all(inputs, options)?;
        let ghost added = ds@;
        p.join_channel_in.append(&mut ds);
        assert(p.join_channel_in@.take(before.len() as int) =~= before);
        assert(p.join_channel_in@.skip(before.len() as int) =~= added);
        Ok(p)
    }

    /// Append the channels of the images in `files`; no files, no change.
    pub fn join_channel(self, files: Vec<String>, options: Option<SharpOptions>) -> (r: Result<Pipeline, String>)
        ensures
            channels_joined(self, r, paths(files@), or(options, no_sharp_options())),
    {
        let mut inputs: Vec<Input> = Vec::new();
        let mut i: usize = 0;
        while i < files.len()
            invariant
                i <= files@.len(),
                inputs@ == paths(files@).take(i as int),
            decreases files@.len() - i,
        {
            inputs.push(Input::Path(files[i].clone()));
            assert(paths(files@).take(i as int + 1) =~= paths(files@).take(i as int).push(
                Input::Path(files@[i as int]),
            ));
            i += 1;
        }
        assert(paths(files@).take(files@.len() as int) =~= paths(files@));
        self.append_channels(inputs, options)
    }

    /// Append the channels of the images in `buffers`; no buffers, no
    /// change.
    pub fn join_channel_buffers(self, buffers: Vec<Vec<u8>>, options: Option<SharpOptions>) -> (r: Result<Pipeline, String>)
        ensures
            channels_joined(self, r, buffers_input(buffers@), or(options, no_sharp_options())),
    {
        let ghost all = buffers@;
        let mut rest = buffers;
        let mut inputs: Vec<Input> = Vec::new();
        while rest.len() > 0
            invariant
                all == all.take(inputs@.len() as int) + rest@,
                inputs@ == buffers_input(all).take(inputs@.len() as int),
                inputs@.len() <= all.len(),
            decreases rest@.len(),
        {
            let ghost before = rest@;
            let b = rest.remove(0);
            assert(before.drop_first() =~= rest@);
            assert(all[inputs@.len() as int] == b);
            assert(buffers_input(all).take(inputs@.len() as int + 1) =~= buffers_input(all).take(
                inputs@.len() as int,
            ).push(Input::Buffer(b)));
            inputs.push(Input::Buffer(b));
        }
        assert(all.take(inputs@.len() as int) =~= all);
        assert(buffers_input(all).take(inputs@.len() as int) =~= buffers_input(all));
        self.append_channels(inputs, options)
    }
}

} // verus!
