//! The media the sink receives, and the fields it shows of each.
use vstd::prelude::*;

use crate::keyed::KeyedList;
use crate::text::owned;

verus! {

/// A media as the sink receives it.  `extra_metadata` holds each extra value already written
/// as JSON text.
#[derive(Debug)]
pub struct Media {
    pub url: String,
    pub essential_metadata: EssentialMetadata,
    pub type_metadata: TypeMetadata,
    pub extra_metadata: Option<Vec<(String, String)>>,
}

impl Default for Media {
    /// An empty image media.
    fn default() -> (r: Media)
        ensures
            r.url@.len() == 0,
            r.essential_metadata.title@.len() == 0,
            r.essential_metadata.creation == 0,
            r.type_metadata == (TypeMetadata::Image { width: 0, height: 0 }),
            r.extra_metadata is None,
    {
        Media {
            url: String::new(),
            essential_metadata: EssentialMetadata::default(),
            type_metadata: TypeMetadata::default(),
            extra_metadata: None,
        }
    }
}

/// What every media has: a title and a creation time.
#[derive(Debug)]
pub struct EssentialMetadata {
    pub title: String,
    pub creation: i64,
}

impl Default for EssentialMetadata {
    /// Empty title, creation time zero.
    fn default() -> (r: EssentialMetadata)
        ensures
            r.title@.len() == 0,
            r.creation == 0,
    {
        EssentialMetadata { title: String::new(), creation: 0 }
    }
}

/// What is known of a media by its kind.
#[derive(Debug)]
pub enum TypeMetadata {
    Image { width: u64, height: u64 },
    PDF { author: String, summary: String },
}

impl Default for TypeMetadata {
    /// An image of size zero.
    fn default() -> (r: TypeMetadata)
        ensures
            r == (TypeMetadata::Image { width: 0, height: 0 }),
    {
        TypeMetadata::Image { width: 0, height: 0 }
    }
}

/// The name of a kind of media.
pub open spec fn kind_name_of(t: TypeMetadata) -> Seq<char> {
    match t {
        TypeMetadata::Image { .. } => "image"@,
        TypeMetadata::PDF { .. } => "pdf"@,
    }
}

impl TypeMetadata {
    /// The name of the kind: `image` or `pdf`.
    pub fn kind_name(&self) -> (r: String)
        ensures
            r@ == kind_name_of(*self),
    {
        match self {
            TypeMetadata::Image { .. } => owned("image"),
            TypeMetadata::PDF { .. } => owned("pdf"),
        }
    }
}

/// A value shown for a media.
#[derive(Debug)]
pub enum Field {
    Url(String),
    Text(String),
    Int(i64),
    UInt(u64),
}

/// A field's value, with its text seen as characters.
pub enum FieldView {
    Url(Seq<char>),
    Text(Seq<char>),
    Int(i64),
    UInt(u64),
}

impl View for Field {
    type V = FieldView;

    open spec fn view(&self) -> FieldView {
        match self {
            Field::Url(s) => FieldView::Url(s@),
            Field::Text(s) => FieldView::Text(s@),
            Field::Int(i) => FieldView::Int(*i),
            Field::UInt(u) => FieldView::UInt(*u),
        }
    }
}

/// The fields of a media record, each seen through its view.
pub open spec fn record_view(r: KeyedList<Field>) -> Map<Seq<char>, FieldView> {
    r.table().map_values(|f: Field| f@)
}

/// `m` with the extra values of `extras` put over it, later ones over earlier ones.
pub open spec fn with_extras(m: Map<Seq<char>, FieldView>, extras: Seq<(String, String)>) -> Map<
    Seq<char>,
    FieldView,
>
    decreases extras.len(),
{
    if extras.len() == 0 {
        m
    } else {
        with_extras(m, extras.drop_last()).insert(
            extras.last().0@,
            FieldView::Text(extras.last().1@),
        )
    }
}

/// An extra value is shown under its name, over any fixed field of that name and over any
/// earlier extra value of that name.
pub proof fn lemma_last_extra_wins(
    m: Map<Seq<char>, FieldView>,
    extras: Seq<(String, String)>,
    i: int,
)
    requires
        0 <= i < extras.len(),
        forall|j: int| i < j < extras.len() ==> #[trigger] extras[j].0@ != extras[i].0@,
    ensures
        with_extras(m, extras).contains_key(extras[i].0@),
        with_extras(m, extras)[extras[i].0@] == FieldView::Text(extras[i].1@),
    decreases extras.len(),
{
    if i < extras.len() - 1 {
        lemma_last_extra_wins(m, extras.drop_last(), i);
        assert(extras.last().0@ != extras[i].0@);
    }
}

/// The fields shown for a media: its url, title and creation time; for an image its width,
/// height and `type` "image", for a PDF its author under `width`, its summary under
/// `height` and `type` "pdf"; then its extra values, which win over all of these.
pub open spec fn media_fields(m: Media) -> Map<Seq<char>, FieldView> {
    let base = Map::<Seq<char>, FieldView>::empty().insert("url"@, FieldView::Url(m.url@)).insert(
        "title"@,
        FieldView::Text(m.essential_metadata.title@),
    ).insert("creation"@, FieldView::Int(m.essential_metadata.creation));
    let typed = match m.type_metadata {
        TypeMetadata::Image { width, height } => base.insert("width"@, FieldView::UInt(width)).insert(
            "height"@,
            FieldView::UInt(height),
        ).insert("type"@, FieldView::Text("image"@)),
        TypeMetadata::PDF { author, summary } => base.insert(
            "width"@,
            FieldView::Text(author@),
        ).insert("height"@, FieldView::Text(summary@)).insert("type"@, FieldView::Text("pdf"@)),
    };
    match m.extra_metadata {
        None => typed,
        Some(extras) => with_extras(typed, extras@),
    }
}

/// No extra value of `m` is named `key`.
pub open spec fn no_extra_named(m: Media, key: Seq<char>) -> bool {
    match m.extra_metadata {
        None => true,
        Some(extras) => forall|j: int| 0 <= j < extras@.len() ==> #[trigger] extras@[j].0@ != key,
    }
}

/// Extra values leave every field they do not name as it was.
pub proof fn lemma_extras_keep(m: Map<Seq<char>, FieldView>, extras: Seq<(String, String)>, key: Seq<char>)
    requires
        forall|j: int| 0 <= j < extras.len() ==> #[trigger] extras[j].0@ != key,
    ensures
        with_extras(m, extras).contains_key(key) == m.contains_key(key),
        with_extras(m, extras)[key] == m[key],
    decreases extras.len(),
{
    if extras.len() > 0 {
        lemma_extras_keep(m, extras.drop_last(), key);
        assert(extras[extras.len() - 1].0@ != key);
    }
}

/// Every media shows its url, title and creation time, whatever its type, unless an extra
/// value of that name is put over it; and its type as `image` or `pdf`.
pub proof fn law_media_fields_common(m: Media)
    ensures
        no_extra_named(m, "creation"@) ==> media_fields(m).contains_key("creation"@)
            && media_fields(m)["creation"@] == FieldView::Int(m.essential_metadata.creation),
        no_extra_named(m, "url"@) ==> media_fields(m).contains_key("url"@)
            && media_fields(m)["url"@] == FieldView::Url(m.url@),
        no_extra_named(m, "title"@) ==> media_fields(m).contains_key("title"@)
            && media_fields(m)["title"@] == FieldView::Text(m.essential_metadata.title@),
        no_extra_named(m, "type"@) ==> media_fields(m).contains_key("type"@)
            && media_fields(m)["type"@] == FieldView::Text(
            match m.type_metadata {
                TypeMetadata::Image { .. } => "image"@,
                TypeMetadata::PDF { .. } => "pdf"@,
            },
        ),
{
    reveal_strlit("url");
    reveal_strlit("title");
    reveal_strlit("creation");
    reveal_strlit("width");
    reveal_strlit("height");
    reveal_strlit("type");
    let named = Map::<Seq<char>, FieldView>::empty().insert("url"@, FieldView::Url(m.url@));
    let titled = named.insert("title"@, FieldView::Text(m.essential_metadata.title@));
    let base = titled.insert("creation"@, FieldView::Int(m.essential_metadata.creation));
    let typed = match m.type_metadata {
        TypeMetadata::Image { width, height } => {
            let w = base.insert("width"@, FieldView::UInt(width));
            w.insert("height"@, FieldView::UInt(height)).insert("type"@, FieldView::Text("image"@))
        },
        TypeMetadata::PDF { author, summary } => {
            let w = base.insert("width"@, FieldView::Text(author@));
            w.insert("height"@, FieldView::Text(summary@)).insert("type"@, FieldView::Text("pdf"@))
        },
    };
    assert("creation"@ != "width"@) by {
        assert("creation"@[0] != "width"@[0]);
    }
    assert("creation"@ != "height"@) by {
        assert("creation"@[0] != "height"@[0]);
    }
    assert("creation"@ != "type"@) by {
        assert("creation"@[0] != "type"@[0]);
    }
    assert("url"@ != "width"@) by {
        assert("url"@[0] != "width"@[0]);
    }
    assert("url"@ != "height"@) by {
        assert("url"@[0] != "height"@[0]);
    }
    assert("url"@ != "type"@) by {
        assert("url"@[0] != "type"@[0]);
    }
    assert("title"@ != "width"@) by {
        assert("title"@[0] != "width"@[0]);
    }
    assert("title"@ != "height"@) by {
        assert("title"@[0] != "height"@[0]);
    }
    assert("url"@ != "title"@) by {
        assert("url"@[0] != "title"@[0]);
    }
    assert("url"@ != "creation"@) by {
        assert("url"@[0] != "creation"@[0]);
    }
    assert("title"@ != "creation"@) by {
        assert("title"@[0] != "creation"@[0]);
    }
    assert("title"@ != "type"@) by {
        assert("title"@.len() != "type"@.len());
    }
    assert(base.contains_key("creation"@));
    assert(base["creation"@] == FieldView::Int(m.essential_metadata.creation));
    assert(base["url"@] == FieldView::Url(m.url@));
    assert(base["title"@] == FieldView::Text(m.essential_metadata.title@));
    match m.type_metadata {
        TypeMetadata::Image { width, height } => {
            let w = base.insert("width"@, FieldView::UInt(width));
            let h = w.insert("height"@, FieldView::UInt(height));
            assert(w["creation"@] == base["creation"@] && w.contains_key("creation"@));
            assert(h["creation"@] == base["creation"@] && h.contains_key("creation"@));
            assert(w["url"@] == base["url"@] && h["url"@] == base["url"@]);
            assert(w["title"@] == base["title"@] && h["title"@] == base["title"@]);
        },
        TypeMetadata::PDF { author, summary } => {
            let w = base.insert("width"@, FieldView::Text(author@));
            let h = w.insert("height"@, FieldView::Text(summary@));
            assert(w["creation"@] == base["creation"@] && w.contains_key("creation"@));
            assert(h["creation"@] == base["creation"@] && h.contains_key("creation"@));
            assert(w["url"@] == base["url"@] && h["url"@] == base["url"@]);
            assert(w["title"@] == base["title"@] && h["title"@] == base["title"@]);
        },
    }
    assert(typed.contains_key("creation"@));
    assert(typed["creation"@] == FieldView::Int(m.essential_metadata.creation));
    assert(typed["url"@] == FieldView::Url(m.url@));
    assert(typed["title"@] == FieldView::Text(m.essential_metadata.title@));
    match m.extra_metadata {
        None => {},
        Some(extras) => {
            if no_extra_named(m, "creation"@) {
                lemma_extras_keep(typed, extras@, "creation"@);
            }
            if no_extra_named(m, "url"@) {
                lemma_extras_keep(typed, extras@, "url"@);
            }
            if no_extra_named(m, "title"@) {
                lemma_extras_keep(typed, extras@, "title"@);
            }
            if no_extra_named(m, "type"@) {
                lemma_extras_keep(typed, extras@, "type"@);
            }
        },
    }
}

/// A media without extra values shows exactly six fields: url, title, creation, width,
/// height and type; an image its width and height under those names, a PDF its author under
/// `width` and its summary under `height`.
pub proof fn law_media_fields_plain(m: Media)
    requires
        m.extra_metadata is None,
    ensures
        media_fields(m).dom() == set!["url"@, "title"@, "creation"@, "width"@, "height"@, "type"@],
        m.type_metadata matches TypeMetadata::Image { width, height } ==> {
            &&& media_fields(m)["width"@] == FieldView::UInt(width)
            &&& media_fields(m)["height"@] == FieldView::UInt(height)
        },
        m.type_metadata matches TypeMetadata::PDF { author, summary } ==> {
            &&& media_fields(m)["width"@] == FieldView::Text(author@)
            &&& media_fields(m)["height"@] == FieldView::Text(summary@)
        },
{
    reveal_strlit("width");
    reveal_strlit("height");
    reveal_strlit("type");
    assert("width"@ != "height"@) by {
        assert("width"@[0] != "height"@[0]);
    }
    assert("width"@ != "type"@) by {
        assert("width"@[0] != "type"@[0]);
    }
    assert("height"@ != "type"@) by {
        assert("height"@[0] != "type"@[0]);
    }
    assert(media_fields(m).dom() =~= set![
        "url"@,
        "title"@,
        "creation"@,
        "width"@,
        "height"@,
        "type"@,
    ]);
}

/// Puts `value` under `key` in the record.
fn put(record: &mut KeyedList<Field>, key: &str, value: Field)
    ensures
        record_view(*final(record)) == record_view(*old(record)).insert(key@, value@),
{
    let ghost v = value@;
    record.insert(owned(key), value);
    assert(record_view(*record) =~= record_view(*old(record)).insert(key@, v));
}

/// The fields the sink shows for a media.
pub fn media_record(media: &Media) -> (r: KeyedList<Field>)
    ensures
        record_view(r) == media_fields(*media),
{
    let mut record: KeyedList<Field> = KeyedList::new();
    assert(record_view(record) =~= Map::<Seq<char>, FieldView>::empty());
    put(&mut record, "url", Field::Url(media.url.clone()));
    put(&mut record, "title", Field::Text(media.essential_metadata.title.clone()));
    put(&mut record, "creation", Field::Int(media.essential_metadata.creation));
    match &media.type_metadata {
        TypeMetadata::Image { width, height } => {
            put(&mut record, "width", Field::UInt(*width));
            put(&mut record, "height", Field::UInt(*height));
            put(&mut record, "type", Field::Text(owned("image")));
        },
        TypeMetadata::PDF { author, summary } => {
            put(&mut record, "width", Field::Text(author.clone()));
            put(&mut record, "height", Field::Text(summary.clone()));
            put(&mut record, "type", Field::Text(owned("pdf")));
        },
    }
    match &media.extra_metadata {
        None => {},
        Some(extras) => {
            let ghost typed = record_view(record);
            let mut i: usize = 0;
            while i < extras.len()
                invariant
                    i <= extras@.len(),
                    record_view(record) == with_extras(typed, extras@.subrange(0, i as int)),
                decreases extras@.len() - i,
            {
                assert(extras@.subrange(0, i + 1).drop_last() =~= extras@.subrange(0, i as int));
                put(&mut record, extras[i].0.as_str(), Field::Text(extras[i].1.clone()));
                i = i + 1;
            }
            assert(extras@.subrange(0, extras@.len() as int) =~= extras@);
        },
    }
    record
}

} // verus!
