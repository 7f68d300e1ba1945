use vstd::prelude::*;

verus! {

/// The type or format of clipboard content. A clipboard item may hold several
/// representations at once, one per content type.
///
/// The well-known variants are portable; `Custom` carries a platform-specific
/// format name that has no portable equivalent.
#[derive(Clone, Debug, Hash)]
pub enum ContentType {
    Text,
    Html,
    Pdf,
    Png,
    Rtf,
    Url,
    Custom(String),
}

/// Mathematical model of a [`ContentType`]: the custom name as a character sequence.
pub enum ContentTypeModel {
    Text,
    Html,
    Pdf,
    Png,
    Rtf,
    Url,
    Custom(Seq<char>),
}

impl View for ContentType {
    type V = ContentTypeModel;

    open spec fn view(&self) -> ContentTypeModel {
        match self {
            ContentType::Text => ContentTypeModel::Text,
            ContentType::Html => ContentTypeModel::Html,
            ContentType::Pdf => ContentTypeModel::Pdf,
            ContentType::Png => ContentTypeModel::Png,
            ContentType::Rtf => ContentTypeModel::Rtf,
            ContentType::Url => ContentTypeModel::Url,
            ContentType::Custom(s) => ContentTypeModel::Custom(s@),
        }
    }
}

impl PartialEq for ContentType {
    fn eq(&self, other: &ContentType) -> (r: bool) {
        match (self, other) {
            (ContentType::Text, ContentType::Text) => true,
            (ContentType::Html, ContentType::Html) => true,
            (ContentType::Pdf, ContentType::Pdf) => true,
            (ContentType::Png, ContentType::Png) => true,
            (ContentType::Rtf, ContentType::Rtf) => true,
            (ContentType::Url, ContentType::Url) => true,
            (ContentType::Custom(a), ContentType::Custom(b)) => *a == *b,
            _ => false,
        }
    }
}

impl vstd::std_specs::cmp::PartialEqSpecImpl for ContentType {
    open spec fn obeys_eq_spec() -> bool {
        true
    }

    open spec fn eq_spec(&self, other: &ContentType) -> bool {
        self@ == other@
    }
}

impl Eq for ContentType {
}

impl ContentTypeModel {
    /// Whether this is a platform-specific name rather than a portable type.
    pub open spec fn is_custom(self) -> bool {
        self is Custom
    }
}

impl ContentType {
    /// A copy of this content type with the same model.
    pub fn duplicate(&self) -> (r: ContentType)
        ensures
            r@ == self@,
    {
        match self {
            ContentType::Text => ContentType::Text,
            ContentType::Html => ContentType::Html,
            ContentType::Pdf => ContentType::Pdf,
            ContentType::Png => ContentType::Png,
            ContentType::Rtf => ContentType::Rtf,
            ContentType::Url => ContentType::Url,
            ContentType::Custom(s) => ContentType::Custom(s.clone()),
        }
    }

    /// The content type that a pasteboard type name denotes: a well-known
    /// variant for a recognized name, `Custom(name)` otherwise.
    pub fn from_pasteboard_name(name: &str) -> (r: ContentType)
        ensures
            r@ == NativeFormats::Pasteboard.from_name_spec(name@),
    {
        NativeFormats::Pasteboard.from_name(name)
    }
}

/// Whether two strings hold the same characters.
pub fn same_text(a: &str, b: &str) -> (r: bool)
    ensures
        r == (a@ == b@),
{
    let x = a.to_owned();
    let y = b.to_owned();
    x == y
}

/// A backend's table of native format names for the well-known content types.
#[derive(Clone, Copy, Debug, PartialEq, Eq, Structural)]
pub enum NativeFormats {
    /// Uniform type identifiers of a system-managed pasteboard.
    Pasteboard,
    /// Selection target names of the X11 selection protocol (MIME-style,
    /// with `UTF8_STRING` for text).
    X11,
}

impl NativeFormats {
    /// The native name of a well-known content type, or the custom name itself.
    pub open spec fn name_spec(self, t: ContentTypeModel) -> Seq<char> {
        match self {
            NativeFormats::Pasteboard => match t {
                ContentTypeModel::Text => "public.utf8-plain-text"@,
                ContentTypeModel::Html => "public.html"@,
                ContentTypeModel::Pdf => "com.adobe.pdf"@,
                ContentTypeModel::Png => "public.png"@,
                ContentTypeModel::Rtf => "public.rtf"@,
                ContentTypeModel::Url => "public.file-url"@,
                ContentTypeModel::Custom(s) => s,
            },
            NativeFormats::X11 => match t {
                ContentTypeModel::Text => "UTF8_STRING"@,
                ContentTypeModel::Html => "text/html"@,
                ContentTypeModel::Pdf => "application/pdf"@,
                ContentTypeModel::Png => "image/png"@,
                ContentTypeModel::Rtf => "text/rtf"@,
                ContentTypeModel::Url => "text/uri-list"@,
                ContentTypeModel::Custom(s) => s,
            },
        }
    }

    /// Whether `s` is the native name of some well-known content type.
    pub open spec fn recognizes(self, s: Seq<char>) -> bool {
        exists|t: ContentTypeModel| !t.is_custom() && self.name_spec(t) == s
    }

    /// The content type a native name denotes.
    pub open spec fn from_name_spec(self, s: Seq<char>) -> ContentTypeModel {
        if s == self.name_spec(ContentTypeModel::Url) {
            ContentTypeModel::Url
        } else if s == self.name_spec(ContentTypeModel::Html) {
            ContentTypeModel::Html
        } else if s == self.name_spec(ContentTypeModel::Pdf) {
            ContentTypeModel::Pdf
        } else if s == self.name_spec(ContentTypeModel::Png) {
            ContentTypeModel::Png
        } else if s == self.name_spec(ContentTypeModel::Rtf) {
            ContentTypeModel::Rtf
        } else if s == self.name_spec(ContentTypeModel::Text) {
            ContentTypeModel::Text
        } else {
            ContentTypeModel::Custom(s)
        }
    }

    /// Normal form of a content type: a custom name that denotes a well-known
    /// type is replaced by that type; anything else is kept.
    pub open spec fn normalize_spec(self, t: ContentTypeModel) -> ContentTypeModel {
        match t {
            ContentTypeModel::Custom(s) => self.from_name_spec(s),
            _ => t,
        }
    }

    /// The content type that a native name denotes.
    pub fn from_name(self, name: &str) -> (r: ContentType)
        ensures
            r@ == self.from_name_spec(name@),
    {
        if same_text(name, self.url_name()) {
            ContentType::Url
        } else if same_text(name, self.html_name()) {
            ContentType::Html
        } else if same_text(name, self.pdf_name()) {
            ContentType::Pdf
        } else if same_text(name, self.png_name()) {
            ContentType::Png
        } else if same_text(name, self.rtf_name()) {
            ContentType::Rtf
        } else if same_text(name, self.text_name()) {
            ContentType::Text
        } else {
            ContentType::Custom(name.to_owned())
        }
    }

    /// Collapses a custom content type into a well-known one when its name is
    /// recognized; otherwise returns the content type unchanged.
    pub fn normalize(self, ct: ContentType) -> (r: ContentType)
        ensures
            r@ == self.normalize_spec(ct@),
    {
        match ct {
            ContentType::Custom(s) => self.from_name(s.as_str()),
            _ => ct,
        }
    }

    /// The native name of a content type; the name itself for a custom one.
    pub fn denormalize(self, ct: ContentType) -> (r: String)
        ensures
            r@ == self.name_spec(ct@),
    {
        match ct {
            ContentType::Text => self.text_name().to_owned(),
            ContentType::Html => self.html_name().to_owned(),
            ContentType::Pdf => self.pdf_name().to_owned(),
            ContentType::Png => self.png_name().to_owned(),
            ContentType::Rtf => self.rtf_name().to_owned(),
            ContentType::Url => self.url_name().to_owned(),
            ContentType::Custom(s) => s,
        }
    }

    fn text_name(self) -> (r: &'static str)
        ensures
            r@ == self.name_spec(ContentTypeModel::Text),
    {
        match self {
            NativeFormats::Pasteboard => "public.utf8-plain-text",
            NativeFormats::X11 => "UTF8_STRING",
        }
    }

    fn html_name(self) -> (r: &'static str)
        ensures
            r@ == self.name_spec(ContentTypeModel::Html),
    {
        match self {
            NativeFormats::Pasteboard => "public.html",
            NativeFormats::X11 => "text/html",
        }
    }

    fn pdf_name(self) -> (r: &'static str)
        ensures
            r@ == self.name_spec(ContentTypeModel::Pdf),
    {
        match self {
            NativeFormats::Pasteboard => "com.adobe.pdf",
            NativeFormats::X11 => "application/pdf",
        }
    }

    fn png_name(self) -> (r: &'static str)
        ensures
            r@ == self.name_spec(ContentTypeModel::Png),
    {
        match self {
            NativeFormats::Pasteboard => "public.png",
            NativeFormats::X11 => "image/png",
        }
    }

    fn rtf_name(self) -> (r: &'static str)
        ensures
            r@ == self.name_spec(ContentTypeModel::Rtf),
    {
        match self {
            NativeFormats::Pasteboard => "public.rtf",
            NativeFormats::X11 => "text/rtf",
        }
    }

    fn url_name(self) -> (r: &'static str)
        ensures
            r@ == self.name_spec(ContentTypeModel::Url),
    {
        match self {
            NativeFormats::Pasteboard => "public.file-url",
            NativeFormats::X11 => "text/uri-list",
        }
    }
}

/// Round trip on recognized names: a custom content type whose name is the
/// native name of a well-known type normalizes to that type, and denormalizing
/// the result gives the name back.
pub proof fn lemma_recognized_name_round_trip(table: NativeFormats, t: ContentTypeModel)
    requires
        !t.is_custom(),
    ensures
        table.normalize_spec(ContentTypeModel::Custom(table.name_spec(t))) == t,
        table.name_spec(table.normalize_spec(ContentTypeModel::Custom(table.name_spec(t))))
            == table.name_spec(t),
{
    reveal_strlit("public.utf8-plain-text");
    reveal_strlit("public.html");
    reveal_strlit("com.adobe.pdf");
    reveal_strlit("public.png");
    reveal_strlit("public.rtf");
    reveal_strlit("public.file-url");
    reveal_strlit("UTF8_STRING");
    reveal_strlit("text/html");
    reveal_strlit("application/pdf");
    reveal_strlit("image/png");
    reveal_strlit("text/rtf");
    reveal_strlit("text/uri-list");
    assert("public.png"@[7] != "public.rtf"@[7]);
    assert("text/html"@[0] != "image/png"@[0]);
    match table {
        NativeFormats::Pasteboard => {
            assert(table.name_spec(ContentTypeModel::Url).len() == 15);
            assert(table.name_spec(ContentTypeModel::Html).len() == 11);
            assert(table.name_spec(ContentTypeModel::Pdf).len() == 13);
            assert(table.name_spec(ContentTypeModel::Png).len() == 10);
            assert(table.name_spec(ContentTypeModel::Rtf).len() == 10);
            assert(table.name_spec(ContentTypeModel::Text).len() == 22);
        },
        NativeFormats::X11 => {
            assert(table.name_spec(ContentTypeModel::Url).len() == 13);
            assert(table.name_spec(ContentTypeModel::Html).len() == 9);
            assert(table.name_spec(ContentTypeModel::Pdf).len() == 15);
            assert(table.name_spec(ContentTypeModel::Png).len() == 9);
            assert(table.name_spec(ContentTypeModel::Rtf).len() == 8);
            assert(table.name_spec(ContentTypeModel::Text).len() == 11);
        },
    }
}

/// Identity on unrecognized names: a custom content type whose name denotes no
/// well-known type is its own normal form and denormalizes to its name.
pub proof fn lemma_unrecognized_name_identity(table: NativeFormats, s: Seq<char>)
    requires
        !table.recognizes(s),
    ensures
        table.normalize_spec(ContentTypeModel::Custom(s)) == ContentTypeModel::Custom(s),
        table.name_spec(ContentTypeModel::Custom(s)) == s,
{
    if s == table.name_spec(ContentTypeModel::Url) {
        assert(!ContentTypeModel::Url.is_custom());
    } else if s == table.name_spec(ContentTypeModel::Html) {
        assert(!ContentTypeModel::Html.is_custom());
    } else if s == table.name_spec(ContentTypeModel::Pdf) {
        assert(!ContentTypeModel::Pdf.is_custom());
    } else if s == table.name_spec(ContentTypeModel::Png) {
        assert(!ContentTypeModel::Png.is_custom());
    } else if s == table.name_spec(ContentTypeModel::Rtf) {
        assert(!ContentTypeModel::Rtf.is_custom());
    } else if s == table.name_spec(ContentTypeModel::Text) {
        assert(!ContentTypeModel::Text.is_custom());
    }
}

/// The models of a sequence of content types.
pub open spec fn models(v: Seq<ContentType>) -> Seq<ContentTypeModel> {
    v.map_values(|c: ContentType| c@)
}

/// The character views of a sequence of strings.
pub open spec fn texts(v: Seq<String>) -> Seq<Seq<char>> {
    v.map_values(|s: String| s@)
}

/// Whether a content type with the same model occurs in a list.
pub fn contains_type(v: &Vec<ContentType>, t: &ContentType) -> (r: bool)
    ensures
        r == models(v@).contains(t@),
{
    let mut j: usize = 0;
    while j < v.len()
        invariant
            j <= v@.len(),
            forall|k: int| 0 <= k < j ==> v@[k]@ != t@,
        decreases v@.len() - j,
    {
        if v[j] == *t {
            assert(models(v@)[j as int] == t@);
            return true;
        }
        j = j + 1;
    }
    assert forall|k: int| 0 <= k < models(v@).len() implies models(v@)[k] != t@ by {
        assert(v@[k]@ != t@);
    }
    false
}

impl NativeFormats {
    /// The content types that a list of native names denotes, each once, in
    /// the order of first occurrence.
    pub open spec fn distinct_types_spec(self, names: Seq<Seq<char>>) -> Seq<ContentTypeModel>
        decreases names.len(),
    {
        if names.len() == 0 {
            Seq::empty()
        } else {
            let prev = self.distinct_types_spec(names.drop_last());
            let t = self.from_name_spec(names.last());
            if prev.contains(t) {
                prev
            } else {
                prev.push(t)
            }
        }
    }

    /// Normalizes a list of native names into content types, dropping repeats.
    pub fn content_types_from_names(self, names: &Vec<String>) -> (r: Vec<ContentType>)
        ensures
            models(r@) == self.distinct_types_spec(texts(names@)),
    {
        let ghost all = texts(names@);
        let mut out: Vec<ContentType> = Vec::new();
        let mut i: usize = 0;
        while i < names.len()
            invariant
                i <= names@.len(),
                all == texts(names@),
                models(out@) == self.distinct_types_spec(all.take(i as int)),
            decreases names@.len() - i,
        {
            let t = self.from_name(names[i].as_str());
            let present = contains_type(&out, &t);
            proof {
                assert(all.take(i + 1).drop_last() =~= all.take(i as int));
                assert(all.take(i + 1).last() == names@[i as int]@);
            }
            if !present {
                out.push(t);
                assert(models(out@) =~= models(out@.drop_last()).push(out@.last()@));
            }
            i = i + 1;
        }
        assert(all.take(names@.len() as int) =~= all);
        out
    }
}

/// What the de-duplicated list holds: each content type that some name
/// denotes, and each exactly once.
pub proof fn lemma_distinct_types_members(table: NativeFormats, names: Seq<Seq<char>>)
    ensures
        table.distinct_types_spec(names).no_duplicates(),
        forall|t: ContentTypeModel|
            table.distinct_types_spec(names).contains(t) <==> exists|i: int|
                0 <= i < names.len() && table.from_name_spec(#[trigger] names[i]) == t,
    decreases names.len(),
{
    if names.len() > 0 {
        let front = names.drop_last();
        lemma_distinct_types_members(table, front);
        let prev = table.distinct_types_spec(front);
        let t0 = table.from_name_spec(names.last());
        let d = table.distinct_types_spec(names);
        assert(d == if prev.contains(t0) {
            prev
        } else {
            prev.push(t0)
        });
        assert forall|t: ContentTypeModel|
            d.contains(t) <==> exists|i: int|
                0 <= i < names.len() && table.from_name_spec(#[trigger] names[i]) == t by {
            if d.contains(t) {
                let j = choose|j: int| 0 <= j < d.len() && d[j] == t;
                if j < prev.len() {
                    assert(d[j] == prev[j]);
                    assert(prev.contains(t));
                    let i = choose|i: int|
                        0 <= i < front.len() && table.from_name_spec(#[trigger] front[i]) == t;
                    assert(names[i] == front[i]);
                    assert(table.from_name_spec(names[i]) == t);
                } else {
                    assert(t == t0);
                    assert(names[names.len() - 1] == names.last());
                    assert(table.from_name_spec(names[names.len() - 1]) == t);
                }
            }
            if exists|i: int| 0 <= i < names.len() && table.from_name_spec(#[trigger] names[i]) == t {
                let i = choose|i: int|
                    0 <= i < names.len() && table.from_name_spec(#[trigger] names[i]) == t;
                if i < names.len() - 1 {
                    assert(front[i] == names[i]);
                    assert(prev.contains(t));
                    let j = choose|j: int| 0 <= j < prev.len() && prev[j] == t;
                    assert(d[j] == t);
                } else {
                    assert(t == t0);
                    if !prev.contains(t0) {
                        assert(d[prev.len() as int] == t0);
                    }
                }
            }
        }
        if !prev.contains(t0) {
            assert forall|a: int, b: int| 0 <= a < d.len() && 0 <= b < d.len() && a != b implies d[a]
                != d[b] by {
                if a == prev.len() {
                    assert(!prev.contains(d[b]) || d[b] != t0);
                } else if b == prev.len() {
                    assert(prev[a] == d[a]);
                }
            }
        }
    }
}

/// Reading back the native name of any content type gives its normal form.
pub proof fn lemma_from_name_of_name(table: NativeFormats, t: ContentTypeModel)
    ensures
        table.from_name_spec(table.name_spec(t)) == table.normalize_spec(t),
{
    if !t.is_custom() {
        lemma_recognized_name_round_trip(table, t);
    }
}

} // verus!
