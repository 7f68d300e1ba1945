//! A system-managed pasteboard: one clipboard item offered in several
//! representations, each a byte sequence tagged with a native type name.
//! Writing is clear-then-write; the pasteboard keeps the data after the call.
use crate::content_type::{
    lemma_from_name_of_name, models, texts, ContentType, ContentTypeModel, NativeFormats,
};
use crate::error::{ClipboardError, Result};
use crate::text::{string_from_utf8, utf8_bytes};
use vstd::prelude::*;
use vstd::utf8::{decode_utf8, encode_utf8, valid_utf8};

verus! {

broadcast use vstd::utf8::group_utf8_lib;

/// One representation of an item: its native type name and its bytes.
pub type EntryModel = (Seq<char>, Seq<u8>);

/// The type names of an item's representations, in order.
pub open spec fn names_of(e: Seq<EntryModel>) -> Seq<Seq<char>> {
    e.map_values(|p: EntryModel| p.0)
}

/// Whether each type name occurs once.
pub open spec fn unique_names(e: Seq<EntryModel>) -> bool {
    names_of(e).no_duplicates()
}

/// The position of a type name in an item that holds it.
pub open spec fn name_index(e: Seq<EntryModel>, name: Seq<char>) -> int {
    choose|i: int| 0 <= i < e.len() && e[i].0 == name
}

/// The bytes offered under a type name.
pub open spec fn lookup(e: Seq<EntryModel>, name: Seq<char>) -> Option<Seq<u8>> {
    if names_of(e).contains(name) {
        Some(e[name_index(e, name)].1)
    } else {
        None
    }
}

/// The item after setting the bytes for a type name: they replace the bytes
/// held under that name, or are added at the end.
pub open spec fn set_data_spec(e: Seq<EntryModel>, name: Seq<char>, data: Seq<u8>) -> Seq<EntryModel> {
    if names_of(e).contains(name) {
        e.update(name_index(e, name), (name, data))
    } else {
        e.push((name, data))
    }
}

/// The item that a list of content types and bytes gives, each set in turn
/// under its pasteboard type name.
pub open spec fn item_spec(entries: Seq<(ContentTypeModel, Seq<u8>)>) -> Seq<EntryModel>
    decreases entries.len(),
{
    if entries.len() == 0 {
        Seq::empty()
    } else {
        set_data_spec(
            item_spec(entries.drop_last()),
            NativeFormats::Pasteboard.name_spec(entries.last().0),
            entries.last().1,
        )
    }
}

/// The item that holds a text and nothing else.
pub open spec fn text_item_spec(s: Seq<char>) -> Seq<EntryModel> {
    seq![(NativeFormats::Pasteboard.name_spec(ContentTypeModel::Text), encode_utf8(s))]
}

/// The text that a pasteboard offers.
pub open spec fn text_spec(pb: Option<Seq<EntryModel>>) -> Result<Seq<char>> {
    match pb {
        None => Err(ClipboardError::Empty),
        Some(e) => match lookup(e, NativeFormats::Pasteboard.name_spec(ContentTypeModel::Text)) {
            None => Err(ClipboardError::Empty),
            Some(d) => if valid_utf8(d) {
                Ok(decode_utf8(d))
            } else {
                Err(ClipboardError::ProtocolViolation)
            },
        },
    }
}

/// The content types that a pasteboard offers, normalized, each once.
pub open spec fn types_spec(pb: Option<Seq<EntryModel>>) -> Seq<ContentTypeModel> {
    match pb {
        None => Seq::empty(),
        Some(e) => NativeFormats::Pasteboard.distinct_types_spec(names_of(e)),
    }
}

/// The bytes that a pasteboard offers for a content type.
pub open spec fn data_spec(pb: Option<Seq<EntryModel>>, t: ContentTypeModel) -> Result<Seq<u8>> {
    match pb {
        None => Err(ClipboardError::Empty),
        Some(e) => match lookup(e, NativeFormats::Pasteboard.name_spec(t)) {
            None => Err(ClipboardError::Empty),
            Some(d) => Ok(d),
        },
    }
}

/// Whether a pasteboard state can occur: its item's type names are distinct.
pub open spec fn valid_state(pb: Option<Seq<EntryModel>>) -> bool {
    match pb {
        None => true,
        Some(e) => unique_names(e),
    }
}

/// Whether a text result is the one a pasteboard state gives.
pub open spec fn text_result_is(r: Result<String>, expected: Result<Seq<char>>) -> bool {
    match expected {
        Ok(s) => r is Ok && r->Ok_0@ == s,
        Err(e) => r == Err::<String, ClipboardError>(e),
    }
}

/// Whether a bytes result is the one a pasteboard state gives.
pub open spec fn bytes_result_is(r: Result<Vec<u8>>, expected: Result<Seq<u8>>) -> bool {
    match expected {
        Ok(d) => r is Ok && r->Ok_0@ == d,
        Err(e) => r == Err::<Vec<u8>, ClipboardError>(e),
    }
}

/// Whether a content-type list result is the one a pasteboard state gives.
pub open spec fn types_result_is(r: Result<Vec<ContentType>>, expected: Seq<ContentTypeModel>) -> bool {
    r is Ok && models(r->Ok_0@) == expected
}

/// The text that reading strings off a system pasteboard gives: `None` when
/// the read itself failed, the first string when there is one, and empty
/// otherwise.
pub fn text_from_read_strings(strings: Option<Vec<String>>) -> (r: Result<String>)
    ensures
        strings is None ==> r == Err::<String, ClipboardError>(ClipboardError::Transport),
        strings is Some && strings->0@.len() == 0 ==> r == Err::<String, ClipboardError>(
            ClipboardError::Empty,
        ),
        strings is Some && strings->0@.len() > 0 ==> r is Ok && r->Ok_0@ == strings->0@[0]@,
{
    match strings {
        None => Err(ClipboardError::Transport),
        Some(v) => {
            if v.len() == 0 {
                Err(ClipboardError::Empty)
            } else {
                Ok(v[0].clone())
            }
        },
    }
}

/// The models of a list of content types with their bytes.
pub open spec fn entry_models(v: Seq<(ContentType, Vec<u8>)>) -> Seq<(ContentTypeModel, Seq<u8>)> {
    v.map_values(|p: (ContentType, Vec<u8>)| (p.0@, p.1@))
}

/// One clipboard item: representations under distinct type names.
pub struct PasteboardItem {
    entries: Vec<(String, Vec<u8>)>,
}

impl View for PasteboardItem {
    type V = Seq<EntryModel>;

    closed spec fn view(&self) -> Seq<EntryModel> {
        self.entries@.map_values(|p: (String, Vec<u8>)| (p.0@, p.1@))
    }
}

proof fn lemma_set_data_keeps_unique(e: Seq<EntryModel>, name: Seq<char>, data: Seq<u8>)
    requires
        unique_names(e),
    ensures
        unique_names(set_data_spec(e, name, data)),
        names_of(set_data_spec(e, name, data)).contains(name),
        forall|n: Seq<char>|
            n != name ==> (names_of(set_data_spec(e, name, data)).contains(n) <==> names_of(
                e,
            ).contains(n)),
{
    let r = set_data_spec(e, name, data);
    if names_of(e).contains(name) {
        let k = name_index(e, name);
        let w = choose|j: int| 0 <= j < names_of(e).len() && names_of(e)[j] == name;
        assert(e[w].0 == name);
        assert(names_of(e)[k] == name);
        assert(names_of(r) =~= names_of(e));
        assert(names_of(r)[k] == name);
    } else {
        assert(names_of(r) =~= names_of(e).push(name));
        assert(names_of(r)[e.len() as int] == name);
        assert forall|n: Seq<char>| n != name implies (names_of(r).contains(n) <==> names_of(
            e,
        ).contains(n)) by {
            if names_of(r).contains(n) {
                let j = choose|j: int| 0 <= j < names_of(r).len() && names_of(r)[j] == n;
                assert(names_of(e)[j] == n);
            }
            if names_of(e).contains(n) {
                let j = choose|j: int| 0 <= j < names_of(e).len() && names_of(e)[j] == n;
                assert(names_of(r)[j] == n);
            }
        }
    }
}

impl PasteboardItem {
    /// Each type name occurs once.
    pub closed spec fn wf(&self) -> bool {
        unique_names(self@)
    }

    /// An item with no representations.
    pub fn new() -> (r: PasteboardItem)
        ensures
            r.wf(),
            r@ == Seq::<EntryModel>::empty(),
    {
        let r = PasteboardItem { entries: Vec::new() };
        assert(r@ =~= Seq::<EntryModel>::empty());
        r
    }

    /// Sets the bytes offered under a type name, replacing any held there.
    pub fn set_data_for_type(&mut self, name: String, data: Vec<u8>)
        requires
            old(self).wf(),
        ensures
            final(self).wf(),
            final(self)@ == set_data_spec(old(self)@, name@, data@),
    {
        let ghost e = self@;
        let ghost name_v = name@;
        let ghost data_v = data@;
        let mut k: usize = 0;
        let mut found = false;
        while k < self.entries.len() && !found
            invariant
                e == self@,
                unique_names(e),
                k <= e.len(),
                forall|j: int| 0 <= j < k ==> e[j].0 != name@,
                found ==> k < e.len() && e[k as int].0 == name@,
            decreases e.len() - k + if found {
                0int
            } else {
                1int
            },
        {
            if self.entries[k].0 == name {
                found = true;
            } else {
                k = k + 1;
            }
        }
        proof {
            lemma_set_data_keeps_unique(e, name_v, data_v);
            if !found {
                assert(!names_of(e).contains(name_v)) by {
                    if names_of(e).contains(name_v) {
                        let j = choose|j: int|
                            0 <= j < names_of(e).len() && names_of(e)[j] == name_v;
                        assert(e[j].0 == name_v);
                    }
                }
            }
        }
        let ghost before = self.entries@;
        if found {
            proof {
                assert(names_of(e)[k as int] == name_v);
                assert(names_of(e).contains(name_v));
                let c = name_index(e, name_v);
                assert(e[k as int].0 == name_v);
                assert(names_of(e)[c] == name_v);
                assert(c == k);
                assert(set_data_spec(e, name_v, data_v) == e.update(k as int, (name_v, data_v)));
            }
            self.entries.set(k, (name, data));
            assert(self.entries@ == before.update(k as int, self.entries@[k as int]));
            assert(self@ =~= e.update(k as int, (name_v, data_v)));
        } else {
            self.entries.push((name, data));
            assert(self@ =~= e.push((name_v, data_v)));
        }
    }

    /// The type names of the item's representations, in order.
    pub fn types(&self) -> (r: Vec<String>)
        ensures
            texts(r@) == names_of(self@),
    {
        let mut out: Vec<String> = Vec::new();
        let mut k: usize = 0;
        while k < self.entries.len()
            invariant
                k <= self.entries@.len(),
                texts(out@) =~= names_of(self@).take(k as int),
            decreases self.entries@.len() - k,
        {
            let ghost before = out@;
            out.push(self.entries[k].0.clone());
            proof {
                assert(out@ == before.push(self.entries@[k as int].0));
                assert(names_of(self@)[k as int] == self.entries@[k as int].0@);
                assert(texts(out@) =~= texts(before).push(self.entries@[k as int].0@));
                assert(names_of(self@).take(k + 1) =~= names_of(self@).take(k as int).push(
                    names_of(self@)[k as int],
                ));
            }
            k = k + 1;
        }
        assert(names_of(self@).take(k as int) =~= names_of(self@));
        out
    }

    /// The bytes offered under a type name.
    pub fn data_for_type(&self, name: &str) -> (r: Option<Vec<u8>>)
        requires
            self.wf(),
        ensures
            r is None ==> lookup(self@, name@) is None,
            r is Some ==> lookup(self@, name@) == Some(r->0@),
    {
        let ghost e = self@;
        let mut k: usize = 0;
        while k < self.entries.len()
            invariant
                e == self@,
                unique_names(e),
                k <= e.len(),
                forall|j: int| 0 <= j < k ==> e[j].0 != name@,
            decreases e.len() - k,
        {
            if crate::content_type::same_text(self.entries[k].0.as_str(), name) {
                proof {
                    assert(names_of(e)[k as int] == name@);
                    let c = name_index(e, name@);
                    assert(names_of(e)[c] == name@);
                    assert(c == k);
                }
                return Some(vstd::slice::slice_to_vec(self.entries[k].1.as_slice()));
            }
            k = k + 1;
        }
        proof {
            if names_of(e).contains(name@) {
                let j = choose|j: int| 0 <= j < names_of(e).len() && names_of(e)[j] == name@;
                assert(e[j].0 == name@);
            }
        }
        None
    }
}

/// A system-managed pasteboard holding at most one item.
pub struct Pasteboard {
    item: Option<PasteboardItem>,
}

impl View for Pasteboard {
    type V = Option<Seq<EntryModel>>;

    closed spec fn view(&self) -> Option<Seq<EntryModel>> {
        match self.item {
            None => None,
            Some(i) => Some(i@),
        }
    }
}

impl Pasteboard {
    /// The item's type names are distinct.
    pub closed spec fn wf(&self) -> bool {
        match self.item {
            None => true,
            Some(i) => i.wf(),
        }
    }

    /// A well-formed pasteboard is in a state that can occur.
    pub proof fn lemma_valid_state(&self)
        requires
            self.wf(),
        ensures
            valid_state(self@),
    {
    }

    /// An empty pasteboard: nothing was ever written to it.
    pub fn new() -> (r: Pasteboard)
        ensures
            r.wf(),
            r@ is None,
    {
        Pasteboard { item: None }
    }

    /// Removes the current item and takes ownership for a following write.
    pub fn clear_contents(&mut self)
        ensures
            final(self).wf(),
            final(self)@ is None,
    {
        self.item = None;
    }

    /// Writes an item to a cleared pasteboard. A pasteboard that still holds an
    /// item keeps it and refuses the write.
    pub fn write_item(&mut self, item: PasteboardItem) -> (r: bool)
        requires
            old(self).wf(),
            item.wf(),
        ensures
            final(self).wf(),
            r == (old(self)@ is None),
            r ==> final(self)@ == Some(item@),
            !r ==> final(self)@ == old(self)@,
    {
        if self.item.is_none() {
            self.item = Some(item);
            true
        } else {
            false
        }
    }

    /// The text on the pasteboard: the UTF-8 text representation of its item.
    pub fn get_contents(&self) -> (r: Result<String>)
        requires
            self.wf(),
        ensures
            text_spec(self@) is Ok ==> r is Ok && r->Ok_0@ == text_spec(self@)->Ok_0,
            text_spec(self@) is Err ==> r == Err::<String, ClipboardError>(
                text_spec(self@)->Err_0,
            ),
    {
        match &self.item {
            None => Err(ClipboardError::Empty),
            Some(item) => {
                let name = NativeFormats::Pasteboard.denormalize(ContentType::Text);
                match item.data_for_type(name.as_str()) {
                    None => Err(ClipboardError::Empty),
                    Some(bytes) => {
                        match string_from_utf8(bytes) {
                            Some(s) => {
                                proof {
                                    vstd::utf8::encode_utf8_decode_utf8(s@);
                                }
                                Ok(s)
                            },
                            None => Err(ClipboardError::ProtocolViolation),
                        }
                    },
                }
            },
        }
    }

    /// Replaces the pasteboard's item with one holding a text.
    pub fn set_contents(&mut self, data: String) -> (r: Result<()>)
        requires
            old(self).wf(),
        ensures
            final(self).wf(),
            r == Ok::<(), ClipboardError>(()),
            final(self)@ == Some(text_item_spec(data@)),
    {
        let mut item = PasteboardItem::new();
        let name = NativeFormats::Pasteboard.denormalize(ContentType::Text);
        let bytes = utf8_bytes(data.as_str());
        item.set_data_for_type(name, bytes);
        assert(item@ =~= text_item_spec(data@));
        self.clear_contents();
        if self.write_item(item) {
            Ok(())
        } else {
            Err(ClipboardError::Transport)
        }
    }

    /// The content types the pasteboard's item is offered in, normalized and
    /// each once; none for an empty pasteboard.
    pub fn get_content_types(&self) -> (r: Result<Vec<ContentType>>)
        requires
            self.wf(),
        ensures
            r is Ok,
            models(r->Ok_0@) == types_spec(self@),
    {
        match &self.item {
            None => {
                let v: Vec<ContentType> = Vec::new();
                assert(models(v@) =~= Seq::<ContentTypeModel>::empty());
                Ok(v)
            },
            Some(item) => {
                let names = item.types();
                Ok(NativeFormats::Pasteboard.content_types_from_names(&names))
            },
        }
    }

    /// The bytes the pasteboard's item holds for a content type.
    pub fn get_content_for_type(&self, ct: &ContentType) -> (r: Result<Vec<u8>>)
        requires
            self.wf(),
        ensures
            data_spec(self@, ct@) is Ok ==> r is Ok && r->Ok_0@ == data_spec(self@, ct@)->Ok_0,
            data_spec(self@, ct@) is Err ==> r == Err::<Vec<u8>, ClipboardError>(
                data_spec(self@, ct@)->Err_0,
            ),
    {
        match &self.item {
            None => Err(ClipboardError::Empty),
            Some(item) => {
                let name = NativeFormats::Pasteboard.denormalize(ct.duplicate());
                match item.data_for_type(name.as_str()) {
                    None => Err(ClipboardError::Empty),
                    Some(bytes) => Ok(bytes),
                }
            },
        }
    }

    /// Replaces the pasteboard's item with one offering each given content
    /// type under its pasteboard type name.
    pub fn set_content_types(&mut self, entries: Vec<(ContentType, Vec<u8>)>) -> (r: Result<()>)
        requires
            old(self).wf(),
        ensures
            final(self).wf(),
            r == Ok::<(), ClipboardError>(()),
            final(self)@ == Some(item_spec(entry_models(entries@))),
    {
        let ghost all = entry_models(entries@);
        let mut item = PasteboardItem::new();
        let mut i: usize = 0;
        while i < entries.len()
            invariant
                i <= entries@.len(),
                all == entry_models(entries@),
                item.wf(),
                item@ == item_spec(all.take(i as int)),
            decreases entries@.len() - i,
        {
            let name = NativeFormats::Pasteboard.denormalize(entries[i].0.duplicate());
            let data = vstd::slice::slice_to_vec(entries[i].1.as_slice());
            item.set_data_for_type(name, data);
            assert(all.take(i + 1).drop_last() =~= all.take(i as int));
            i = i + 1;
        }
        assert(all.take(entries@.len() as int) =~= all);
        self.clear_contents();
        if self.write_item(item) {
            Ok(())
        } else {
            Err(ClipboardError::Transport)
        }
    }
}

proof fn lemma_first_entry(t: ContentTypeModel, data: Seq<u8>)
    ensures
        item_spec(seq![(t, data)]) == seq![(NativeFormats::Pasteboard.name_spec(t), data)],
{
    let entries = seq![(t, data)];
    let empty = Seq::<EntryModel>::empty();
    assert(entries.drop_last() =~= Seq::<(ContentTypeModel, Seq<u8>)>::empty());
    assert(item_spec(entries.drop_last()) == empty);
    assert(names_of(empty) =~= Seq::<Seq<char>>::empty());
    assert(!names_of(empty).contains(NativeFormats::Pasteboard.name_spec(t)));
    assert(entries.last() == (t, data));
    assert(empty.push((NativeFormats::Pasteboard.name_spec(t), data)) =~= seq![
        (NativeFormats::Pasteboard.name_spec(t), data),
    ]);
}

proof fn lemma_single_name_types(name: Seq<char>)
    ensures
        NativeFormats::Pasteboard.distinct_types_spec(seq![name]) == seq![
            NativeFormats::Pasteboard.from_name_spec(name),
        ],
{
    let table = NativeFormats::Pasteboard;
    assert(seq![name].drop_last() =~= Seq::<Seq<char>>::empty());
    assert(table.distinct_types_spec(seq![name].drop_last()) == Seq::<ContentTypeModel>::empty());
    assert(seq![name].last() == name);
    assert(Seq::<ContentTypeModel>::empty().push(table.from_name_spec(name)) =~= seq![
        table.from_name_spec(name),
    ]);
}

proof fn lemma_single_entry_lookup(name: Seq<char>, data: Seq<u8>)
    ensures
        lookup(seq![(name, data)], name) == Some(data),
{
    let e = seq![(name, data)];
    assert(names_of(e)[0] == name);
    assert(e[name_index(e, name)].0 == name);
}

/// Setting two content types that differ after normalization makes the
/// clipboard offer exactly those two, in that order, each with its bytes.
pub proof fn lemma_set_two_types_then_read(
    a: ContentTypeModel,
    x: Seq<u8>,
    b: ContentTypeModel,
    y: Seq<u8>,
)
    requires
        NativeFormats::Pasteboard.normalize_spec(a) != NativeFormats::Pasteboard.normalize_spec(b),
    ensures
        types_spec(Some(item_spec(seq![(a, x), (b, y)]))) == seq![
            NativeFormats::Pasteboard.normalize_spec(a),
            NativeFormats::Pasteboard.normalize_spec(b),
        ],
        data_spec(Some(item_spec(seq![(a, x), (b, y)])), a) == Ok::<Seq<u8>, ClipboardError>(x),
        data_spec(Some(item_spec(seq![(a, x), (b, y)])), b) == Ok::<Seq<u8>, ClipboardError>(y),
{
    let table = NativeFormats::Pasteboard;
    let na = table.name_spec(a);
    let nb = table.name_spec(b);
    lemma_from_name_of_name(table, a);
    lemma_from_name_of_name(table, b);
    assert(na != nb);
    let entries = seq![(a, x), (b, y)];
    assert(entries.drop_last() =~= seq![(a, x)]);
    assert(seq![(a, x)].drop_last() =~= Seq::<(ContentTypeModel, Seq<u8>)>::empty());
    let e1 = item_spec(seq![(a, x)]);
    lemma_first_entry(a, x);
    assert(e1 =~= seq![(na, x)]);
    assert(names_of(e1) =~= seq![na]);
    assert(!names_of(e1).contains(nb)) by {
        if names_of(e1).contains(nb) {
            let j = choose|j: int| 0 <= j < names_of(e1).len() && names_of(e1)[j] == nb;
            assert(j == 0);
        }
    }
    let e2 = item_spec(entries);
    assert(e2 =~= seq![(na, x), (nb, y)]);
    let names = names_of(e2);
    assert(names =~= seq![na, nb]);
    assert(names.drop_last() =~= seq![na]);
    let d1 = table.distinct_types_spec(seq![na]);
    lemma_single_name_types(na);
    assert(!d1.contains(table.normalize_spec(b))) by {
        if d1.contains(table.normalize_spec(b)) {
            let j = choose|j: int| 0 <= j < d1.len() && d1[j] == table.normalize_spec(b);
            assert(j == 0);
        }
    }
    assert(table.distinct_types_spec(names) =~= seq![
        table.normalize_spec(a),
        table.normalize_spec(b),
    ]);
    assert(names[0] == na);
    assert(names[1] == nb);
    let ia = name_index(e2, na);
    assert(e2[ia].0 == na);
    assert(ia == 0);
    let ib = name_index(e2, nb);
    assert(e2[ib].0 == nb);
    assert(ib == 1);
}

/// Setting content types replaces the whole item: afterwards the clipboard
/// offers only the newly set type, and nothing under any other type, whatever
/// it offered before.
pub proof fn lemma_set_types_replaces(c: ContentTypeModel, z: Seq<u8>, other: ContentTypeModel)
    requires
        NativeFormats::Pasteboard.normalize_spec(other) != NativeFormats::Pasteboard.normalize_spec(
            c,
        ),
    ensures
        types_spec(Some(item_spec(seq![(c, z)]))) == seq![
            NativeFormats::Pasteboard.normalize_spec(c),
        ],
        data_spec(Some(item_spec(seq![(c, z)])), c) == Ok::<Seq<u8>, ClipboardError>(z),
        data_spec(Some(item_spec(seq![(c, z)])), other) == Err::<Seq<u8>, ClipboardError>(
            ClipboardError::Empty,
        ),
{
    let table = NativeFormats::Pasteboard;
    let nc = table.name_spec(c);
    let no = table.name_spec(other);
    lemma_from_name_of_name(table, c);
    lemma_from_name_of_name(table, other);
    let e = item_spec(seq![(c, z)]);
    lemma_first_entry(c, z);
    assert(names_of(e) =~= seq![nc]);
    lemma_single_name_types(nc);
    lemma_single_entry_lookup(nc, z);
    assert(!names_of(e).contains(no)) by {
        if names_of(e).contains(no) {
            let j = choose|j: int| 0 <= j < names_of(e).len() && names_of(e)[j] == no;
            assert(j == 0);
        }
    }
}

/// A pasteboard that nothing was written to offers no text: reading it fails
/// as empty rather than giving an empty string.
pub proof fn lemma_empty_pasteboard_has_no_text()
    ensures
        text_spec(None) == Err::<Seq<char>, ClipboardError>(ClipboardError::Empty),
        types_spec(None) == Seq::<ContentTypeModel>::empty(),
{
}

/// A text written to the pasteboard reads back unchanged, character for
/// character, multi-byte characters included.
pub proof fn lemma_text_round_trip(s: Seq<char>)
    ensures
        text_spec(Some(text_item_spec(s))) == Ok::<Seq<char>, ClipboardError>(s),
{
    lemma_single_entry_lookup(
        NativeFormats::Pasteboard.name_spec(ContentTypeModel::Text),
        encode_utf8(s),
    );
    vstd::utf8::encode_utf8_valid_utf8(s);
    vstd::utf8::encode_utf8_decode_utf8(s);
}

} // verus!
