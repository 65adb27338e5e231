use crate::error::Error;
use crate::form::{opt_view, Event};
use multipart::server::{Multipart, MultipartData, MultipartField, ReadEntryResult};
use std::io::Cursor;
use vstd::prelude::*;
use vstd::slice::{slice_subrange, slice_to_vec};
use vstd::string::{StrSliceExecFns, StringExecFns};

verus! {

#[verifier::external_type_specification]
#[verifier::external_body]
#[verifier::reject_recursive_types(T)]
pub struct ExCursor<T>(Cursor<T>);

#[verifier::external_type_specification]
#[verifier::external_body]
#[verifier::reject_recursive_types(R)]
pub struct ExMultipart<R>(Multipart<R>);

#[verifier::external_type_specification]
#[verifier::external_body]
#[verifier::reject_recursive_types(M)]
pub struct ExMultipartData<M>(MultipartData<M>);

/// How many bytes of a part are read at a time.
pub const PART_BUFFER_LEN: usize = 4096;

/// The parameter of a content-type header that names the multipart boundary.
pub open spec fn boundary_key() -> Seq<char> {
    seq!['b', 'o', 'u', 'n', 'd', 'a', 'r', 'y', '=']
}

/// `boundary=` starts at position `i` of `s`.
pub open spec fn key_at(s: Seq<char>, i: int) -> bool {
    0 <= i && i + boundary_key().len() <= s.len() && s.subrange(i, i + boundary_key().len())
        == boundary_key()
}

/// `i` is the first position of `s` where `boundary=` starts.
pub open spec fn first_key_at(s: Seq<char>, i: int) -> bool {
    key_at(s, i) && forall|j: int| 0 <= j < i ==> !#[trigger] key_at(s, j)
}

/// The boundary that a content-type header declares: everything after the
/// first `boundary=`, or nothing when the header holds none.
pub fn find_boundary(content_type: &str) -> (r: Option<String>)
    ensures
        r is None <==> forall|i: int| !#[trigger] key_at(content_type@, i),
        r matches Some(b) ==> exists|i: int|
            first_key_at(content_type@, i) && b@ == content_type@.subrange(
                i + boundary_key().len(),
                content_type@.len() as int,
            ),
{
    let key = "boundary=";
    proof {
        reveal_strlit("boundary=");
        assert(key@ =~= boundary_key());
    }
    let n = content_type.unicode_len();
    let mut i: usize = 0;
    while i <= n && 9 <= n - i
        invariant
            i <= n + 1,
            n == content_type@.len(),
            key@ == boundary_key(),
            forall|j: int| 0 <= j < i ==> !#[trigger] key_at(content_type@, j),
        decreases n - i,
    {
        let mut k: usize = 0;
        let mut same = true;
        while same && k < 9
            invariant
                i + 9 <= n,
                n == content_type@.len(),
                key@ == boundary_key(),
                k <= 9,
                same ==> forall|t: int| 0 <= t < k ==> content_type@[i + t] == key@[t],
                !same ==> !key_at(content_type@, i as int),
            decreases 9 - k + (if same { 1int } else { 0int }),
        {
            if content_type.get_char(i + k) != key.get_char(k) {
                proof {
                    assert(content_type@.subrange(i as int, i + 9)[k as int] != boundary_key()[k as int]);
                }
                same = false;
            } else {
                k = k + 1;
            }
        }
        if same {
            proof {
                assert(content_type@.subrange(i as int, i + 9) =~= boundary_key());
                assert(first_key_at(content_type@, i as int));
            }
            return Some(String::from_str(content_type.substring_char(i + 9, n)));
        }
        i = i + 1;
    }
    proof {
        assert forall|j: int| !#[trigger] key_at(content_type@, j) by {
            if j >= i {
                assert(j + 9 > n);
            }
        }
    }
    None
}

/// The parts that multipart's reader finds in `body` split on `boundary`, in
/// order: for each its name, its filename and its content type (as the
/// reader parsed them, the content type written back out), and the bytes
/// that reading it hands out until a read gives none. The list stops where
/// the reader reports the end of the body or an error.
pub uninterp spec fn multipart_parts(body: Seq<u8>, boundary: Seq<char>) -> Seq<
    (Seq<char>, Option<Seq<char>>, Option<Seq<char>>, Seq<u8>),
>;

/// The parts that a multipart reader has yet to hand out.
pub uninterp spec fn parts_left(m: Multipart<Cursor<Vec<u8>>>) -> Seq<
    (Seq<char>, Option<Seq<char>>, Option<Seq<char>>, Seq<u8>),
>;

/// The bytes of the current part that its reader has yet to hand out.
pub uninterp spec fn part_bytes_left(d: MultipartData<Multipart<Cursor<Vec<u8>>>>) -> Seq<u8>;

/// The parts that come after the current one.
pub uninterp spec fn parts_after(d: MultipartData<Multipart<Cursor<Vec<u8>>>>) -> Seq<
    (Seq<char>, Option<Seq<char>>, Option<Seq<char>>, Seq<u8>),
>;

/// One part of a multipart body: name, filename, content type and bytes.
pub type WirePart = (Seq<char>, Option<Seq<char>>, Option<Seq<char>>, Seq<u8>);

/// What a multipart reader over an in-memory body hands out: the headers of
/// a part with a reader of its bytes, the end of the body, or an error.
enum EntryRead {
    Entry {
        name: String,
        filename: Option<String>,
        content_type: Option<String>,
        data: MultipartData<Multipart<Cursor<Vec<u8>>>>,
    },
    End,
    Failed(String),
}

/// Relies on multipart's Multipart::with_body: a reader of the parts of
/// `body` that are delimited by `boundary`.
#[verifier::external_body]
fn split_body(body: Vec<u8>, boundary: String) -> (r: Multipart<Cursor<Vec<u8>>>)
    ensures
        parts_left(r) == multipart_parts(body@, boundary@),
{
    Multipart::with_body(Cursor::new(body), boundary)
}

/// Relies on multipart's Multipart::into_entry: the next part, with the
/// name, filename and content type of its headers and a reader of its bytes;
/// else the end of the body or why it could not be read, after which no part
/// is left.
#[verifier::external_body]
fn next_entry(m: Multipart<Cursor<Vec<u8>>>) -> (r: EntryRead)
    ensures
        match r {
            EntryRead::Entry { name, filename, content_type, data } => {
                &&& parts_left(m).len() > 0
                &&& name@ == parts_left(m)[0].0
                &&& opt_view(filename) == parts_left(m)[0].1
                &&& opt_view(content_type) == parts_left(m)[0].2
                &&& part_bytes_left(data) == parts_left(m)[0].3
                &&& parts_after(data) == parts_left(m).drop_first()
            },
            _ => parts_left(m).len() == 0,
        },
{
    match m.into_entry() {
        ReadEntryResult::Entry(MultipartField { headers, data }) => EntryRead::Entry {
            name: headers.name.to_string(),
            filename: headers.filename,
            content_type: match headers.content_type {
                Some(ct) => Some(ct.to_string()),
                None => None,
            },
            data,
        },
        ReadEntryResult::End(_) => EntryRead::End,
        ReadEntryResult::Error(_, e) => EntryRead::Failed(format!("{:?}", e)),
    }
}

/// Relies on multipart's MultipartData::into_inner: the reader of the whole
/// body, which goes on with the parts after the current one.
#[verifier::external_body]
fn leave_part(data: MultipartData<Multipart<Cursor<Vec<u8>>>>) -> (r: Multipart<Cursor<Vec<u8>>>)
    ensures
        parts_left(r) == parts_after(data),
{
    data.into_inner()
}

/// Relies on `Read::read` of multipart's MultipartData: the next bytes of the
/// part are put at the front of `buf`, never more than its length, and none
/// only once the part is exhausted or `buf` is empty.
#[verifier::external_body]
fn read_part(data: &mut MultipartData<Multipart<Cursor<Vec<u8>>>>, buf: &mut [u8]) -> (r: Result<usize, String>)
    ensures
        final(buf)@.len() == old(buf)@.len(),
        r matches Ok(n) ==> {
            &&& n <= old(buf)@.len()
            &&& final(buf)@.subrange(0, n as int) + part_bytes_left(*final(data)) == part_bytes_left(
                *old(data),
            )
            &&& parts_after(*final(data)) == parts_after(*old(data))
            &&& (n == 0 <==> (part_bytes_left(*old(data)).len() == 0 || old(buf)@.len() == 0))
        },
{
    std::io::Read::read(data, buf).map_err(|e| format!("{:?}", e))
}

enum Position {
    Start(Multipart<Cursor<Vec<u8>>>),
    InPart(MultipartData<Multipart<Cursor<Vec<u8>>>>),
    Over,
}

/// The parts of a multipart request body, read in wire order.
pub struct PartStream {
    position: Position,
    parts: Ghost<Seq<WirePart>>,
    handed: Ghost<nat>,
    sent: Ghost<Seq<u8>>,
    failed: Ghost<bool>,
}

impl PartStream {
    /// All parts of the body.
    pub closed spec fn parts(&self) -> Seq<WirePart> {
        self.parts@
    }

    /// How many parts have been handed out.
    pub closed spec fn handed(&self) -> nat {
        self.handed@
    }

    /// The bytes of the current part handed out so far.
    pub closed spec fn sent(&self) -> Seq<u8> {
        self.sent@
    }

    /// Whether reading the bytes of a part failed, which ends the stream.
    pub closed spec fn failed(&self) -> bool {
        self.failed@
    }

    /// Whether a part is being read.
    pub closed spec fn in_part(&self) -> bool {
        self.position is InPart
    }

    /// The bytes of the part being read.
    pub open spec fn current_bytes(&self) -> Seq<u8> {
        self.parts()[self.handed() - 1].3
    }

    pub closed spec fn wf(&self) -> bool {
        match self.position {
            Position::Start(m) => {
                &&& self.handed@ == 0
                &&& parts_left(m) == self.parts@
                &&& !self.failed@
            },
            Position::InPart(d) => {
                &&& 1 <= self.handed@ <= self.parts@.len()
                &&& parts_after(d) == self.parts@.skip(self.handed@ as int)
                &&& self.sent@ + part_bytes_left(d) == self.parts@[self.handed@ - 1].3
                &&& !self.failed@
            },
            Position::Over => self.handed@ <= self.parts@.len() && (self.failed@ || self.handed@
                == self.parts@.len()),
        }
    }

    /// What callers may rely on of a well-formed stream.
    pub proof fn lemma_wf(&self)
        requires
            self.wf(),
        ensures
            self.handed() <= self.parts().len(),
            self.in_part() ==> {
                &&& self.handed() >= 1
                &&& !self.failed()
                &&& self.sent().len() <= self.current_bytes().len()
                &&& self.sent() == self.current_bytes().subrange(0, self.sent().len() as int)
            },
    {
        if let Position::InPart(d) = self.position {
            let c = self.parts@[self.handed@ - 1].3;
            assert(self.sent@ =~= c.subrange(0, self.sent@.len() as int));
        }
    }

    /// A reader of the parts of `body`, split on the boundary that the
    /// content-type header declares; a request without a header or without a
    /// boundary in it is malformed.
    pub fn open(content_type: Option<&str>, body: Vec<u8>) -> (r: Result<PartStream, Error>)
        ensures
            r is Err <==> (content_type matches Some(ct) ==> forall|i: int| !#[trigger] key_at(ct@, i)),
            r matches Err(e) ==> e == Error::MalformedRequest,
            r matches Ok(s) ==> {
                &&& s.wf()
                &&& s.handed() == 0
                &&& !s.in_part()
                &&& !s.failed()
                &&& content_type matches Some(ct) && exists|i: int|
                    first_key_at(ct@, i) && s.parts() == multipart_parts(
                        body@,
                        ct@.subrange(i + boundary_key().len(), ct@.len() as int),
                    )
            },
    {
        match content_type {
            None => Err(Error::MalformedRequest),
            Some(ct) => match find_boundary(ct) {
                None => Err(Error::MalformedRequest),
                Some(boundary) => {
                    let ghost parts = multipart_parts(body@, boundary@);
                    let ghost i = choose|i: int|
                        first_key_at(ct@, i) && boundary@ == ct@.subrange(
                            i + boundary_key().len(),
                            ct@.len() as int,
                        );
                    let s = PartStream {
                        position: Position::Start(split_body(body, boundary)),
                        parts: Ghost(parts),
                        handed: Ghost(0),
                        sent: Ghost(Seq::empty()),
                        failed: Ghost(false),
                    };
                    assert(first_key_at(ct@, i) && s.parts() == multipart_parts(
                        body@,
                        ct@.subrange(i + boundary_key().len(), ct@.len() as int),
                    ));
                    Ok(s)
                },
            },
        }
    }

    /// The headers of the next part not yet handed out, or, once none is
    /// left, the end of the body or why it could not be read. After a failed
    /// read of a part's bytes the stream only reports its end.
    pub fn next_part(&mut self) -> (r: Event)
        requires
            old(self).wf(),
        ensures
            final(self).wf(),
            final(self).parts() == old(self).parts(),
            final(self).failed() == old(self).failed(),
            r is Part || r is BodyEnd || r is BodyFailed,
            r is Part <==> final(self).in_part(),
            old(self).failed() ==> r is BodyEnd,
            !old(self).failed() && old(self).handed() < old(self).parts().len() ==> {
                &&& r matches Event::Part { name, filename, content_type } && {
                    &&& name@ == old(self).parts()[old(self).handed() as int].0
                    &&& opt_view(filename) == old(self).parts()[old(self).handed() as int].1
                    &&& opt_view(content_type) == old(self).parts()[old(self).handed() as int].2
                }
                &&& final(self).handed() == old(self).handed() + 1
                &&& final(self).sent() == Seq::<u8>::empty()
            },
            !old(self).failed() && old(self).handed() >= old(self).parts().len() ==> {
                &&& r is BodyEnd || r is BodyFailed
                &&& final(self).handed() == old(self).handed()
            },
    {
        let mut position = Position::Over;
        std::mem::swap(&mut self.position, &mut position);
        let ghost parts = self.parts@;
        let ghost k = self.handed@;
        let read = match position {
            Position::Start(body) => {
                assert(parts.skip(0) =~= parts);
                next_entry(body)
            },
            Position::InPart(data) => next_entry(leave_part(data)),
            Position::Over => {
                proof {
                    if !self.failed@ {
                        assert(parts.skip(k as int) =~= Seq::<WirePart>::empty());
                    }
                }
                EntryRead::End
            },
        };
        match read {
            EntryRead::Entry { name, filename, content_type, data } => {
                proof {
                    assert(parts.skip(k as int).drop_first() =~= parts.skip(k + 1 as int));
                    assert(parts.skip(k as int)[0] == parts[k as int]);
                }
                self.position = Position::InPart(data);
                self.handed = Ghost((k + 1) as nat);
                self.sent = Ghost(Seq::empty());
                assert(Seq::<u8>::empty() + parts[k as int].3 =~= parts[k as int].3);
                Event::Part { name, filename, content_type }
            },
            EntryRead::End => Event::BodyEnd,
            EntryRead::Failed(m) => Event::BodyFailed(m),
        }
    }

    /// The next bytes of the current part, at most a buffer's worth: they
    /// follow the bytes handed out before, and none come only once the whole
    /// part is out. A failed read ends the stream. Outside a part there is
    /// nothing to read.
    pub fn read_data(&mut self) -> (r: Event)
        requires
            old(self).wf(),
        ensures
            final(self).wf(),
            final(self).parts() == old(self).parts(),
            final(self).handed() == old(self).handed(),
            r is Data || r is ReadFailed,
            r matches Event::Data(d) ==> d@.len() <= PART_BUFFER_LEN,
            !old(self).in_part() ==> (r matches Event::Data(d) && d@.len() == 0 && *final(self) == *old(
                self,
            )),
            old(self).in_part() ==> match r {
                Event::Data(d) => {
                    &&& final(self).in_part()
                    &&& final(self).sent() == old(self).sent() + d@
                    &&& (d@.len() == 0 <==> old(self).sent() == old(self).current_bytes())
                },
                _ => final(self).failed() && !final(self).in_part(),
            },
    {
        let ghost c = self.parts@[self.handed@ - 1].3;
        match &mut self.position {
            Position::InPart(data) => {
                let ghost left = part_bytes_left(*data);
                let mut buf: Vec<u8> = vec![0u8; PART_BUFFER_LEN];
                match read_part(data, buf.as_mut_slice()) {
                    Ok(n) => {
                        let d = slice_to_vec(slice_subrange(buf.as_slice(), 0, n));
                        proof {
                            let s0 = self.sent@;
                            assert(s0 + left == c);
                            assert(s0 + d@ + part_bytes_left(*data) =~= s0 + (d@ + part_bytes_left(*data)));
                            if d@.len() == 0 {
                                assert(left.len() == 0);
                                assert(s0 =~= c);
                            } else if s0 == c {
                                assert(left.len() == 0);
                            }
                        }
                        self.sent = Ghost(self.sent@ + d@);
                        Event::Data(d)
                    },
                    Err(m) => {
                        self.position = Position::Over;
                        self.failed = Ghost(true);
                        Event::ReadFailed(m)
                    },
                }
            },
            _ => Event::Data(Vec::new()),
        }
    }
}

} // verus!
