//! The video-frame data model carried by messages: frame geometry and timing,
//! content location, transformations applied along the pipeline, and the
//! objects detected on a frame.

use vstd::prelude::*;
use vstd::seq_lib::*;

verus! {

/// Why a content accessor was refused.
#[derive(Debug, Clone, PartialEq, Eq, Structural)]
pub enum FrameError {
    /// The frame's video data is not stored internally.
    NotStoredInternally,
    /// The frame's video data is not stored externally.
    NotStoredExternally,
}

/// Externally stored frame content: how to fetch it, and where from.
#[derive(Debug, Clone, PartialEq)]
pub struct ExternalFrame {
    pub method: String,
    pub location: Option<String>,
}

impl ExternalFrame {
    pub fn new(method: String, location: Option<String>) -> (r: Self)
        ensures
            r.method == method,
            r.location == location,
    {
        Self { method, location }
    }
}

/// Where a frame's video data lives: fetched externally, carried inline, or
/// absent.
#[derive(Debug, Clone, PartialEq)]
pub enum VideoFrameContent {
    External(ExternalFrame),
    Internal(Vec<u8>),
    Empty,
}

/// The two contents hold the same data, comparing strings and bytes by
/// value.
pub open spec fn content_matches(a: VideoFrameContent, b: VideoFrameContent) -> bool {
    match (a, b) {
        (VideoFrameContent::External(x), VideoFrameContent::External(y)) => x.method@ == y.method@
            && (match (x.location, y.location) {
            (Some(p), Some(q)) => p@ == q@,
            (None, None) => true,
            _ => false,
        }),
        (VideoFrameContent::Internal(d), VideoFrameContent::Internal(e)) => d@ == e@,
        (VideoFrameContent::Empty, VideoFrameContent::Empty) => true,
        _ => false,
    }
}

impl VideoFrameContent {
    /// A copy holding the same data.
    pub fn duplicate(&self) -> (r: Self)
        ensures
            content_matches(r, *self),
    {
        match self {
            VideoFrameContent::External(e) => VideoFrameContent::External(
                ExternalFrame {
                    method: e.method.clone(),
                    location: match &e.location {
                        Some(l) => Some(l.clone()),
                        None => None,
                    },
                },
            ),
            VideoFrameContent::Internal(d) => VideoFrameContent::Internal(
                crate::bytes_util::clone_bytes(d),
            ),
            VideoFrameContent::Empty => VideoFrameContent::Empty,
        }
    }
}

/// `VideoFrameContent` with accessors, as exposed to binding layers.
#[derive(Debug, Clone)]
pub struct PyVideoFrameContent {
    pub inner: VideoFrameContent,
}

impl PyVideoFrameContent {
    pub fn new(inner: VideoFrameContent) -> (r: Self)
        ensures
            r.inner == inner,
    {
        Self { inner }
    }

    pub fn external(method: String, location: Option<String>) -> (r: Self)
        ensures
            r.inner matches VideoFrameContent::External(e) && e.method == method && e.location
                == location,
    {
        Self { inner: VideoFrameContent::External(ExternalFrame::new(method, location)) }
    }

    pub fn internal(data: Vec<u8>) -> (r: Self)
        ensures
            r.inner matches VideoFrameContent::Internal(d) && d == data,
    {
        Self { inner: VideoFrameContent::Internal(data) }
    }

    pub fn none() -> (r: Self)
        ensures
            r.inner is Empty,
    {
        Self { inner: VideoFrameContent::Empty }
    }

    pub fn is_external(&self) -> (r: bool)
        ensures
            r == (self.inner is External),
    {
        matches!(self.inner, VideoFrameContent::External(_))
    }

    pub fn is_internal(&self) -> (r: bool)
        ensures
            r == (self.inner is Internal),
    {
        matches!(self.inner, VideoFrameContent::Internal(_))
    }

    pub fn is_none(&self) -> (r: bool)
        ensures
            r == (self.inner is Empty),
    {
        matches!(self.inner, VideoFrameContent::Empty)
    }

    /// The inline video data; refused unless the content is internal.
    pub fn get_data(&self) -> (r: Result<Vec<u8>, FrameError>)
        ensures
            r is Ok <==> self.inner is Internal,
            r matches Ok(d) ==> d@ == self.inner->Internal_0@,
            r matches Err(e) ==> e == FrameError::NotStoredInternally,
    {
        match &self.inner {
            VideoFrameContent::Internal(data) => Ok(crate::bytes_util::clone_bytes(data)),
            _ => Err(FrameError::NotStoredInternally),
        }
    }

    /// The fetch method; refused unless the content is external.
    pub fn get_method(&self) -> (r: Result<String, FrameError>)
        ensures
            r is Ok <==> self.inner is External,
            r matches Ok(m) ==> m@ == self.inner->External_0.method@,
            r matches Err(e) ==> e == FrameError::NotStoredExternally,
    {
        match &self.inner {
            VideoFrameContent::External(data) => Ok(data.method.clone()),
            _ => Err(FrameError::NotStoredExternally),
        }
    }

    /// The fetch location; refused unless the content is external.
    pub fn get_location(&self) -> (r: Result<Option<String>, FrameError>)
        ensures
            r is Ok <==> self.inner is External,
            r matches Ok(l) ==> (match (l, self.inner->External_0.location) {
                (Some(a), Some(b)) => a@ == b@,
                (None, None) => true,
                _ => false,
            }),
            r matches Err(e) ==> e == FrameError::NotStoredExternally,
    {
        match &self.inner {
            VideoFrameContent::External(data) => Ok(
                match &data.location {
                    Some(l) => Some(l.clone()),
                    None => None,
                },
            ),
            _ => Err(FrameError::NotStoredExternally),
        }
    }
}

/// One geometric transformation applied to a frame on its way through the
/// pipeline.
#[derive(Debug, Clone, Copy, PartialEq, Eq, Structural)]
pub enum FrameTransformation {
    InitialSize(u64, u64),
    Scale(u64, u64),
    Padding(u64, u64, u64, u64),
    Empty,
}

/// `FrameTransformation` with accessors, as exposed to binding layers.
#[derive(Debug, Clone)]
pub struct PyFrameTransformation {
    pub inner: FrameTransformation,
}

impl PyFrameTransformation {
    pub fn new(inner: FrameTransformation) -> (r: Self)
        ensures
            r.inner == inner,
    {
        Self { inner }
    }

    pub fn initial_size(width: i64, height: i64) -> (r: Self)
        requires
            width > 0,
            height > 0,
        ensures
            r.inner == FrameTransformation::InitialSize(width as u64, height as u64),
    {
        Self { inner: FrameTransformation::InitialSize(width as u64, height as u64) }
    }

    pub fn scale(width: i64, height: i64) -> (r: Self)
        requires
            width > 0,
            height > 0,
        ensures
            r.inner == FrameTransformation::Scale(width as u64, height as u64),
    {
        Self { inner: FrameTransformation::Scale(width as u64, height as u64) }
    }

    pub fn padding(left: i64, top: i64, right: i64, bottom: i64) -> (r: Self)
        requires
            left >= 0,
            top >= 0,
            right >= 0,
            bottom >= 0,
        ensures
            r.inner == FrameTransformation::Padding(
                left as u64,
                top as u64,
                right as u64,
                bottom as u64,
            ),
    {
        Self {
            inner: FrameTransformation::Padding(
                left as u64,
                top as u64,
                right as u64,
                bottom as u64,
            ),
        }
    }

    pub fn none() -> (r: Self)
        ensures
            r.inner is Empty,
    {
        Self { inner: FrameTransformation::Empty }
    }

    pub fn is_initial_size(&self) -> (r: bool)
        ensures
            r == (self.inner is InitialSize),
    {
        matches!(self.inner, FrameTransformation::InitialSize(_, _))
    }

    pub fn is_scale(&self) -> (r: bool)
        ensures
            r == (self.inner is Scale),
    {
        matches!(self.inner, FrameTransformation::Scale(_, _))
    }

    pub fn is_padding(&self) -> (r: bool)
        ensures
            r == (self.inner is Padding),
    {
        matches!(self.inner, FrameTransformation::Padding(_, _, _, _))
    }

    pub fn is_none(&self) -> (r: bool)
        ensures
            r == (self.inner is Empty),
    {
        matches!(self.inner, FrameTransformation::Empty)
    }

    pub fn as_initial_size(&self) -> (r: Option<(u64, u64)>)
        ensures
            match r {
                Some(p) => self.inner == FrameTransformation::InitialSize(p.0, p.1),
                None => !(self.inner is InitialSize),
            },
    {
        match &self.inner {
            FrameTransformation::InitialSize(w, h) => Some((*w, *h)),
            _ => None,
        }
    }

    pub fn as_scale(&self) -> (r: Option<(u64, u64)>)
        ensures
            match r {
                Some(p) => self.inner == FrameTransformation::Scale(p.0, p.1),
                None => !(self.inner is Scale),
            },
    {
        match &self.inner {
            FrameTransformation::Scale(w, h) => Some((*w, *h)),
            _ => None,
        }
    }

    pub fn as_padding(&self) -> (r: Option<(u64, u64, u64, u64)>)
        ensures
            match r {
                Some(p) => self.inner == FrameTransformation::Padding(p.0, p.1, p.2, p.3),
                None => !(self.inner is Padding),
            },
    {
        match &self.inner {
            FrameTransformation::Padding(l, t, rr, b) => Some((*l, *t, *rr, *b)),
            _ => None,
        }
    }
}

// ---------------------------------------------------------------------------
// Objects detected on a frame.
// ---------------------------------------------------------------------------
/// The mathematical content of an object: its id and the creator and label
/// strings by which frames are queried.
pub ghost struct ObjectModel {
    pub id: int,
    pub creator: Seq<char>,
    pub label: Seq<char>,
}

/// An object detected on a frame, named by a creator and a label.
#[derive(Debug, Clone)]
pub struct Object {
    pub id: i64,
    pub creator: String,
    pub label: String,
}

impl View for Object {
    type V = ObjectModel;

    open spec fn view(&self) -> ObjectModel {
        ObjectModel { id: self.id as int, creator: self.creator@, label: self.label@ }
    }
}

impl Object {
    pub fn new(id: i64, creator: String, label: String) -> (r: Object)
        ensures
            r@.id == id,
            r@.creator == creator@,
            r@.label == label@,
    {
        Object { id, creator, label }
    }

    /// A copy with the same content.
    pub fn duplicate(&self) -> (r: Object)
        ensures
            r@ == self@,
    {
        Object { id: self.id, creator: self.creator.clone(), label: self.label.clone() }
    }
}

/// The content of a list of objects.
pub open spec fn objects_model(objs: Seq<Object>) -> Seq<ObjectModel> {
    objs.map_values(|o: Object| o@)
}

/// Does the object satisfy the query? A query gives an optional creator and
/// an optional label, each matching by string equality when present, and a
/// `negated` flag that inverts the selection.
pub open spec fn object_selected(
    o: ObjectModel,
    negated: bool,
    creator: Option<Seq<char>>,
    label: Option<Seq<char>>,
) -> bool {
    ((match creator {
        Some(c) => o.creator == c,
        None => true,
    }) && (match label {
        Some(l) => o.label == l,
        None => true,
    })) != negated
}

/// The creator and label views of an optional query pair.
pub open spec fn opt_string_view(s: Option<String>) -> Option<Seq<char>> {
    match s {
        Some(v) => Some(v@),
        None => None,
    }
}

/// Does this object satisfy the query? Executable counterpart of
/// [`object_selected`].
fn object_matches(o: &Object, negated: bool, creator: &Option<String>, label: &Option<String>) -> (r:
    bool)
    ensures
        r == object_selected(o@, negated, opt_string_view(*creator), opt_string_view(*label)),
{
    let creator_match = match creator {
        Some(c) => o.creator == *c,
        None => true,
    };
    let label_match = match label {
        Some(l) => o.label == *l,
        None => true,
    };
    (creator_match && label_match) != negated
}

/// Clone a list of objects, keeping the content of each.
fn duplicate_objects(objs: &Vec<Object>) -> (r: Vec<Object>)
    ensures
        objects_model(r@) == objects_model(objs@),
{
    let mut r: Vec<Object> = Vec::new();
    let mut i: usize = 0;
    while i < objs.len()
        invariant
            0 <= i <= objs@.len(),
            r@.len() == i,
            forall|j: int| 0 <= j < i ==> r@[j]@ == objs@[j]@,
        decreases objs@.len() - i,
    {
        r.push(objs[i].duplicate());
        i = i + 1;
    }
    proof {
        assert(objects_model(r@) =~= objects_model(objs@));
    }
    r
}

/// Does `ids` contain `x`?
fn ids_contain(ids: &Vec<i64>, x: i64) -> (r: bool)
    ensures
        r == ids@.contains(x),
{
    let mut i: usize = 0;
    while i < ids.len()
        invariant
            0 <= i <= ids@.len(),
            forall|j: int| 0 <= j < i ==> ids@[j] != x,
        decreases ids@.len() - i,
    {
        if ids[i] == x {
            return true;
        }
        i = i + 1;
    }
    false
}

// ---------------------------------------------------------------------------
// The frame itself.
// ---------------------------------------------------------------------------
/// The state of one video frame: identity, timing, geometry, content, the
/// transformations applied to it, and the objects detected on it. The
/// `resident_objects` are the live working set; `offline_objects` hold the
/// last snapshot taken of them.
#[derive(Debug, Clone)]
pub struct InnerVideoFrame {
    pub source_id: String,
    pub framerate: String,
    pub width: i64,
    pub height: i64,
    pub codec: Option<String>,
    pub keyframe: Option<bool>,
    pub pts: i64,
    pub dts: Option<i64>,
    pub duration: Option<i64>,
    pub content: VideoFrameContent,
    pub transformations: Vec<FrameTransformation>,
    pub offline_objects: Vec<Object>,
    pub resident_objects: Vec<Object>,
}

impl InnerVideoFrame {
    /// Snapshot the live objects into the offline store.
    pub fn prepare_before_save(&mut self)
        ensures
            objects_model(final(self).offline_objects@) == objects_model(
                old(self).resident_objects@,
            ),
            final(self).resident_objects == old(self).resident_objects,
            final(self).source_id == old(self).source_id,
            final(self).framerate == old(self).framerate,
            final(self).width == old(self).width,
            final(self).height == old(self).height,
            final(self).codec == old(self).codec,
            final(self).keyframe == old(self).keyframe,
            final(self).pts == old(self).pts,
            final(self).dts == old(self).dts,
            final(self).duration == old(self).duration,
            final(self).content == old(self).content,
            final(self).transformations == old(self).transformations,
    {
        self.offline_objects = duplicate_objects(&self.resident_objects);
    }

    /// Restore the live objects from the offline store.
    pub fn prepare_after_load(&mut self)
        ensures
            objects_model(final(self).resident_objects@) == objects_model(
                old(self).offline_objects@,
            ),
            final(self).offline_objects == old(self).offline_objects,
            final(self).source_id == old(self).source_id,
            final(self).framerate == old(self).framerate,
            final(self).width == old(self).width,
            final(self).height == old(self).height,
            final(self).codec == old(self).codec,
            final(self).keyframe == old(self).keyframe,
            final(self).pts == old(self).pts,
            final(self).dts == old(self).dts,
            final(self).duration == old(self).duration,
            final(self).content == old(self).content,
            final(self).transformations == old(self).transformations,
    {
        self.resident_objects = duplicate_objects(&self.offline_objects);
    }
}

/// A video frame. It owns its state; accessors copy values out and setters
/// replace them.
#[derive(Debug, Clone)]
pub struct VideoFrame {
    pub inner: InnerVideoFrame,
}

impl VideoFrame {
    pub fn from_inner(object: InnerVideoFrame) -> (r: Self)
        ensures
            r.inner == object,
    {
        VideoFrame { inner: object }
    }

    pub fn new(
        source_id: String,
        framerate: String,
        width: i64,
        height: i64,
        content: PyVideoFrameContent,
        codec: Option<String>,
        keyframe: Option<bool>,
        pts: i64,
        dts: Option<i64>,
        duration: Option<i64>,
    ) -> (r: Self)
        ensures
            r.inner.source_id == source_id,
            r.inner.framerate == framerate,
            r.inner.width == width,
            r.inner.height == height,
            r.inner.content == content.inner,
            r.inner.codec == codec,
            r.inner.keyframe == keyframe,
            r.inner.pts == pts,
            r.inner.dts == dts,
            r.inner.duration == duration,
            r.inner.transformations@ == Seq::<FrameTransformation>::empty(),
            r.inner.offline_objects@ == Seq::<Object>::empty(),
            r.inner.resident_objects@ == Seq::<Object>::empty(),
    {
        VideoFrame::from_inner(
            InnerVideoFrame {
                source_id,
                pts,
                framerate,
                width,
                height,
                dts,
                duration,
                codec,
                keyframe,
                transformations: Vec::new(),
                content: content.inner,
                offline_objects: Vec::new(),
                resident_objects: Vec::new(),
            },
        )
    }

    /// This frame as a transport message.
    pub fn to_message(&self) -> (r: crate::message::Message)
        ensures
            !r.meta.is_eos,
    {
        crate::message::Message::video_frame(self)
    }

    pub fn get_source_id(&self) -> (r: String)
        ensures
            r@ == self.inner.source_id@,
    {
        self.inner.source_id.clone()
    }

    pub fn set_source_id(&mut self, source_id: String)
        ensures
            final(self).inner == (InnerVideoFrame { source_id, ..old(self).inner }),
    {
        self.inner.source_id = source_id;
    }

    pub fn get_pts(&self) -> (r: i64)
        ensures
            r == self.inner.pts,
    {
        self.inner.pts
    }

    pub fn set_pts(&mut self, pts: i64)
        requires
            pts >= 0,
        ensures
            final(self).inner == (InnerVideoFrame { pts, ..old(self).inner }),
    {
        self.inner.pts = pts;
    }

    pub fn get_framerate(&self) -> (r: String)
        ensures
            r@ == self.inner.framerate@,
    {
        self.inner.framerate.clone()
    }

    pub fn set_framerate(&mut self, framerate: String)
        ensures
            final(self).inner == (InnerVideoFrame { framerate, ..old(self).inner }),
    {
        self.inner.framerate = framerate;
    }

    pub fn get_width(&self) -> (r: i64)
        ensures
            r == self.inner.width,
    {
        self.inner.width
    }

    pub fn set_width(&mut self, width: i64)
        requires
            width > 0,
        ensures
            final(self).inner == (InnerVideoFrame { width, ..old(self).inner }),
    {
        self.inner.width = width;
    }

    pub fn get_height(&self) -> (r: i64)
        ensures
            r == self.inner.height,
    {
        self.inner.height
    }

    pub fn set_height(&mut self, height: i64)
        requires
            height > 0,
        ensures
            final(self).inner == (InnerVideoFrame { height, ..old(self).inner }),
    {
        self.inner.height = height;
    }

    pub fn get_dts(&self) -> (r: Option<i64>)
        ensures
            r == self.inner.dts,
    {
        self.inner.dts
    }

    pub fn set_dts(&mut self, dts: Option<i64>)
        requires
            dts matches Some(v) ==> v >= 0,
        ensures
            final(self).inner == (InnerVideoFrame { dts, ..old(self).inner }),
    {
        self.inner.dts = dts;
    }

    pub fn get_duration(&self) -> (r: Option<i64>)
        ensures
            r == self.inner.duration,
    {
        self.inner.duration
    }

    pub fn set_duration(&mut self, duration: Option<i64>)
        requires
            duration matches Some(v) ==> v >= 0,
        ensures
            final(self).inner == (InnerVideoFrame { duration, ..old(self).inner }),
    {
        self.inner.duration = duration;
    }

    pub fn get_codec(&self) -> (r: Option<String>)
        ensures
            match (r, self.inner.codec) {
                (Some(a), Some(b)) => a@ == b@,
                (None, None) => true,
                _ => false,
            },
    {
        match &self.inner.codec {
            Some(c) => Some(c.clone()),
            None => None,
        }
    }

    pub fn set_codec(&mut self, codec: Option<String>)
        ensures
            final(self).inner == (InnerVideoFrame { codec, ..old(self).inner }),
    {
        self.inner.codec = codec;
    }

    pub fn get_keyframe(&self) -> (r: Option<bool>)
        ensures
            r == self.inner.keyframe,
    {
        self.inner.keyframe
    }

    pub fn set_keyframe(&mut self, keyframe: Option<bool>)
        ensures
            final(self).inner == (InnerVideoFrame { keyframe, ..old(self).inner }),
    {
        self.inner.keyframe = keyframe;
    }

    pub fn get_content(&self) -> (r: PyVideoFrameContent)
        ensures
            content_matches(r.inner, self.inner.content),
    {
        PyVideoFrameContent::new(self.inner.content.duplicate())
    }

    pub fn set_content(&mut self, content: PyVideoFrameContent)
        ensures
            final(self).inner == (InnerVideoFrame { content: content.inner, ..old(self).inner }),
    {
        self.inner.content = content.inner;
    }

    pub fn clear_transformations(&mut self)
        ensures
            final(self).inner == (InnerVideoFrame {
                transformations: final(self).inner.transformations,
                ..old(self).inner
            }),
            final(self).inner.transformations@ == Seq::<FrameTransformation>::empty(),
    {
        self.inner.transformations.clear();
    }

    pub fn add_transformation(&mut self, transformation: PyFrameTransformation)
        ensures
            final(self).inner == (InnerVideoFrame {
                transformations: final(self).inner.transformations,
                ..old(self).inner
            }),
            final(self).inner.transformations@ == old(self).inner.transformations@.push(
                transformation.inner,
            ),
    {
        self.inner.transformations.push(transformation.inner);
    }

    pub fn get_transformations(&self) -> (r: Vec<PyFrameTransformation>)
        ensures
            r@.len() == self.inner.transformations@.len(),
            forall|i: int|
                0 <= i < r@.len() ==> r@[i].inner == self.inner.transformations@[i],
    {
        let mut r: Vec<PyFrameTransformation> = Vec::new();
        let mut i: usize = 0;
        while i < self.inner.transformations.len()
            invariant
                0 <= i <= self.inner.transformations@.len(),
                r@.len() == i,
                forall|j: int| 0 <= j < i ==> r@[j].inner == self.inner.transformations@[j],
            decreases self.inner.transformations@.len() - i,
        {
            r.push(PyFrameTransformation::new(self.inner.transformations[i]));
            i = i + 1;
        }
        r
    }

    /// The object with the given id, if present. When several objects carry
    /// the id, the first is returned.
    pub fn get_object(&self, id: i64) -> (r: Option<Object>)
        ensures
            match r {
                Some(o) => exists|i: int|
                    #![auto]
                    0 <= i < self.inner.resident_objects@.len()
                        && self.inner.resident_objects@[i]@.id == id && o@
                        == self.inner.resident_objects@[i]@,
                None => forall|i: int|
                    #![auto]
                    0 <= i < self.inner.resident_objects@.len()
                        ==> self.inner.resident_objects@[i]@.id != id,
            },
    {
        let objs = &self.inner.resident_objects;
        let mut i: usize = 0;
        while i < objs.len()
            invariant
                objs == &self.inner.resident_objects,
                0 <= i <= objs@.len(),
                forall|j: int| #![auto] 0 <= j < i ==> objs@[j]@.id != id,
            decreases objs@.len() - i,
        {
            if objs[i].id == id {
                let o = objs[i].duplicate();
                proof {
                    let wi = i as int;
                    assert(0 <= wi < self.inner.resident_objects@.len());
                    assert(self.inner.resident_objects@[wi]@.id == id);
                    assert(o@ == self.inner.resident_objects@[wi]@);
                }
                return Some(o);
            }
            i = i + 1;
        }
        None
    }

    /// The objects satisfying the query, in resident order.
    pub fn access_objects(
        &self,
        negated: bool,
        creator: Option<String>,
        label: Option<String>,
    ) -> (r: Vec<Object>)
        ensures
            objects_model(r@) == objects_model(self.inner.resident_objects@).filter(
                |o: ObjectModel|
                    object_selected(o, negated, opt_string_view(creator), opt_string_view(label)),
            ),
    {
        let ghost pred = |o: ObjectModel|
            object_selected(o, negated, opt_string_view(creator), opt_string_view(label));
        let objs = &self.inner.resident_objects;
        let mut r: Vec<Object> = Vec::new();
        let mut i: usize = 0;
        proof {
            reveal_with_fuel(Seq::filter, 1);
            assert(objects_model(objs@.take(0)) =~= Seq::<ObjectModel>::empty());
        }
        while i < objs.len()
            invariant
                objs == &self.inner.resident_objects,
                0 <= i <= objs@.len(),
                objects_model(r@) == objects_model(objs@.take(i as int)).filter(pred),
                pred == (|o: ObjectModel|
                    object_selected(o, negated, opt_string_view(creator), opt_string_view(label))),
            decreases objs@.len() - i,
        {
            let ghost before = objects_model(r@);
            if object_matches(&objs[i], negated, &creator, &label) {
                r.push(objs[i].duplicate());
            }
            proof {
                reveal(Seq::filter);
                let prefix1 = objects_model(objs@.take(i + 1));
                assert(prefix1.drop_last() =~= objects_model(objs@.take(i as int)));
                assert(prefix1.last() == objs@[i as int]@);
                if pred(objs@[i as int]@) {
                    assert(objects_model(r@) =~= before.push(objs@[i as int]@));
                } else {
                    assert(objects_model(r@) =~= before);
                }
            }
            i = i + 1;
        }
        proof {
            assert(objs@.take(objs@.len() as int) =~= objs@);
        }
        r
    }

    /// The objects whose id is listed in `ids`, in resident order.
    pub fn access_objects_by_id(&self, ids: Vec<i64>) -> (r: Vec<Object>)
        ensures
            objects_model(r@) == objects_model(self.inner.resident_objects@).filter(
                |o: ObjectModel| ids@.contains(o.id as i64),
            ),
    {
        let ghost pred = |o: ObjectModel| ids@.contains(o.id as i64);
        let objs = &self.inner.resident_objects;
        let mut r: Vec<Object> = Vec::new();
        let mut i: usize = 0;
        proof {
            reveal_with_fuel(Seq::filter, 1);
            assert(objects_model(objs@.take(0)) =~= Seq::<ObjectModel>::empty());
        }
        while i < objs.len()
            invariant
                objs == &self.inner.resident_objects,
                0 <= i <= objs@.len(),
                objects_model(r@) == objects_model(objs@.take(i as int)).filter(pred),
                pred == (|o: ObjectModel| ids@.contains(o.id as i64)),
            decreases objs@.len() - i,
        {
            let ghost before = objects_model(r@);
            if ids_contain(&ids, objs[i].id) {
                r.push(objs[i].duplicate());
            }
            proof {
                reveal(Seq::filter);
                let prefix1 = objects_model(objs@.take(i + 1));
                assert(prefix1.drop_last() =~= objects_model(objs@.take(i as int)));
                assert(prefix1.last() == objs@[i as int]@);
                if pred(objs@[i as int]@) {
                    assert(objects_model(r@) =~= before.push(objs@[i as int]@));
                } else {
                    assert(objects_model(r@) =~= before);
                }
            }
            i = i + 1;
        }
        proof {
            assert(objs@.take(objs@.len() as int) =~= objs@);
        }
        r
    }

    pub fn add_object(&mut self, object: Object)
        ensures
            final(self).inner == (InnerVideoFrame {
                resident_objects: final(self).inner.resident_objects,
                ..old(self).inner
            }),
            final(self).inner.resident_objects@ == old(self).inner.resident_objects@.push(object),
    {
        self.inner.resident_objects.push(object);
    }

    /// Remove the objects whose id is listed in `ids`.
    pub fn delete_objects_by_ids(&mut self, ids: Vec<i64>)
        ensures
            final(self).inner == (InnerVideoFrame {
                resident_objects: final(self).inner.resident_objects,
                ..old(self).inner
            }),
            objects_model(final(self).inner.resident_objects@) == objects_model(
                old(self).inner.resident_objects@,
            ).filter(|o: ObjectModel| !ids@.contains(o.id as i64)),
    {
        let ghost pred = |o: ObjectModel| !ids@.contains(o.id as i64);
        let objs = &self.inner.resident_objects;
        let mut kept: Vec<Object> = Vec::new();
        let mut i: usize = 0;
        proof {
            reveal_with_fuel(Seq::filter, 1);
            assert(objects_model(objs@.take(0)) =~= Seq::<ObjectModel>::empty());
        }
        while i < objs.len()
            invariant
                0 <= i <= objs@.len(),
                objs == &self.inner.resident_objects,
                objects_model(kept@) == objects_model(objs@.take(i as int)).filter(pred),
                pred == (|o: ObjectModel| !ids@.contains(o.id as i64)),
            decreases objs@.len() - i,
        {
            let ghost before = objects_model(kept@);
            if !ids_contain(&ids, objs[i].id) {
                kept.push(objs[i].duplicate());
            }
            proof {
                reveal(Seq::filter);
                let prefix1 = objects_model(objs@.take(i + 1));
                assert(prefix1.drop_last() =~= objects_model(objs@.take(i as int)));
                assert(prefix1.last() == objs@[i as int]@);
                if pred(objs@[i as int]@) {
                    assert(objects_model(kept@) =~= before.push(objs@[i as int]@));
                } else {
                    assert(objects_model(kept@) =~= before);
                }
            }
            i = i + 1;
        }
        proof {
            assert(objs@.take(objs@.len() as int) =~= objs@);
        }
        self.inner.resident_objects = kept;
    }

    /// Remove the objects satisfying the query; the rest stay, in order.
    pub fn delete_objects(&mut self, negated: bool, creator: Option<String>, label: Option<String>)
        ensures
            final(self).inner == (InnerVideoFrame {
                resident_objects: final(self).inner.resident_objects,
                ..old(self).inner
            }),
            objects_model(final(self).inner.resident_objects@) == objects_model(
                old(self).inner.resident_objects@,
            ).filter(
                |o: ObjectModel|
                    !object_selected(o, negated, opt_string_view(creator), opt_string_view(label)),
            ),
    {
        let ghost pred = |o: ObjectModel|
            !object_selected(o, negated, opt_string_view(creator), opt_string_view(label));
        let objs = &self.inner.resident_objects;
        let mut kept: Vec<Object> = Vec::new();
        let mut i: usize = 0;
        proof {
            reveal_with_fuel(Seq::filter, 1);
            assert(objects_model(objs@.take(0)) =~= Seq::<ObjectModel>::empty());
        }
        while i < objs.len()
            invariant
                0 <= i <= objs@.len(),
                objs == &self.inner.resident_objects,
                objects_model(kept@) == objects_model(objs@.take(i as int)).filter(pred),
                pred == (|o: ObjectModel|
                    !object_selected(o, negated, opt_string_view(creator), opt_string_view(label))),
            decreases objs@.len() - i,
        {
            let ghost before = objects_model(kept@);
            if !object_matches(&objs[i], negated, &creator, &label) {
                kept.push(objs[i].duplicate());
            }
            proof {
                reveal(Seq::filter);
                let prefix1 = objects_model(objs@.take(i + 1));
                assert(prefix1.drop_last() =~= objects_model(objs@.take(i as int)));
                assert(prefix1.last() == objs@[i as int]@);
                if pred(objs@[i as int]@) {
                    assert(objects_model(kept@) =~= before.push(objs@[i as int]@));
                } else {
                    assert(objects_model(kept@) =~= before);
                }
            }
            i = i + 1;
        }
        proof {
            assert(objs@.take(objs@.len() as int) =~= objs@);
        }
        self.inner.resident_objects = kept;
    }

    pub fn clear_objects(&mut self)
        ensures
            final(self).inner == (InnerVideoFrame {
                resident_objects: final(self).inner.resident_objects,
                ..old(self).inner
            }),
            final(self).inner.resident_objects@ == Seq::<Object>::empty(),
    {
        self.inner.resident_objects.clear();
    }

    /// Snapshot the live objects into the offline store.
    pub fn snapshot(&mut self)
        ensures
            objects_model(final(self).inner.offline_objects@) == objects_model(
                old(self).inner.resident_objects@,
            ),
            final(self).inner.resident_objects == old(self).inner.resident_objects,
    {
        self.inner.prepare_before_save();
    }

    /// Replace the live objects with the last snapshot.
    pub fn restore(&mut self)
        ensures
            objects_model(final(self).inner.resident_objects@) == objects_model(
                old(self).inner.offline_objects@,
            ),
            final(self).inner.offline_objects == old(self).inner.offline_objects,
    {
        self.inner.resident_objects.clear();
        self.inner.prepare_after_load();
    }
}

} // verus!
