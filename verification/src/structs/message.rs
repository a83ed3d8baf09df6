//! The safe form of one message record, and the `mailto:` link built
//! from it.

use crate::encoding::{join_strings, join_with, url_encode, url_encoded};
use crate::structs::file_descriptor::FileDescriptor;
use crate::structs::recipient_descriptor::RecipientDescriptor;
use vstd::prelude::*;
use vstd::utf8::encode_utf8;

verus! {

/// The values behind the `Some` entries, in order.
pub open spec fn present_values<T>(s: Seq<Option<T>>) -> Seq<T>
    decreases s.len(),
{
    if s.len() == 0 {
        Seq::empty()
    } else {
        match s.first() {
            Some(v) => seq![v] + present_values(s.drop_first()),
            None => present_values(s.drop_first()),
        }
    }
}

/// Every kept value was present in the input.
pub proof fn lemma_present_values_membership<T>(s: Seq<Option<T>>, j: int)
    requires
        0 <= j < present_values(s).len(),
    ensures
        s.contains(Some(present_values(s)[j])),
    decreases s.len(),
{
    match s.first() {
        Some(v) => {
            if j == 0 {
                assert(s[0] == Some(v));
            } else {
                lemma_present_values_membership(s.drop_first(), j - 1);
                let i = choose|i: int|
                    0 <= i < s.drop_first().len() && s.drop_first()[i] == Some(
                        present_values(s.drop_first())[j - 1],
                    );
                assert(s[i + 1] == Some(present_values(s)[j]));
            }
        },
        None => {
            lemma_present_values_membership(s.drop_first(), j);
            let i = choose|i: int|
                0 <= i < s.drop_first().len() && s.drop_first()[i] == Some(
                    present_values(s.drop_first())[j],
                );
            assert(s[i + 1] == Some(present_values(s)[j]));
        },
    }
}

/// Drop the elements that failed their own conversion, keeping the order
/// of the rest.
pub fn keep_present<T>(v: Vec<Option<T>>) -> (r: Vec<T>)
    ensures
        r@ == present_values(v@),
{
    let ghost orig = v@;
    let mut v = v;
    let mut r: Vec<T> = Vec::new();
    while v.len() > 0
        invariant
            present_values(orig) == r@ + present_values(v@),
        decreases v.len(),
    {
        let ghost before = v@;
        let x = v.remove(0);
        proof {
            assert(before.remove(0) =~= before.drop_first());
        }
        match x {
            Some(t) => {
                r.push(t);
            },
            None => {},
        }
    }
    proof {
        assert(present_values(v@) =~= Seq::<T>::empty());
        assert(r@ =~= r@ + present_values(v@));
    }
    r
}

/// One parsed message: everything the link builder and the consolidation
/// engine read.
pub struct Message {
    pub subject: Option<String>,
    pub note_text: Option<String>,
    pub message_type: Option<String>,
    pub date_received: Option<String>,
    pub conversation_id: Option<String>,
    pub flags: u32,
    pub originator: Option<RecipientDescriptor>,
    pub recips: Vec<RecipientDescriptor>,
    pub files: Vec<FileDescriptor>,
}

/// What the collaborator that copies one attachment hands back: the
/// content it read from the source file (`None` when unreadable), and
/// whether the copy to the destination went through.
pub struct ConsolidateOutcome {
    pub content: Option<Vec<u8>>,
    pub copy_ok: bool,
}

impl Message {
    /// Every attachment is well-formed.
    pub open spec fn wf(&self) -> bool {
        forall|i: int| 0 <= i < self.files@.len() ==> (#[trigger] self.files@[i]).wf()
    }

    /// Assemble a message from the already-converted record fields.
    /// A recipient or attachment whose own conversion failed arrives as
    /// `None` and is dropped; the rest keep their order.
    pub fn from_parts(
        subject: Option<String>,
        note_text: Option<String>,
        message_type: Option<String>,
        date_received: Option<String>,
        conversation_id: Option<String>,
        flags: u32,
        originator: Option<RecipientDescriptor>,
        recips: Vec<Option<RecipientDescriptor>>,
        files: Vec<Option<FileDescriptor>>,
    ) -> (m: Message)
        requires
            forall|i: int|
                0 <= i < files@.len() ==> match #[trigger] files@[i] {
                    Some(fd) => fd.wf(),
                    None => true,
                },
        ensures
            m.wf(),
            m.subject == subject,
            m.note_text == note_text,
            m.message_type == message_type,
            m.date_received == date_received,
            m.conversation_id == conversation_id,
            m.flags == flags,
            m.originator == originator,
            m.recips@ == present_values(recips@),
            m.files@ == present_values(files@),
    {
        let ghost files_in = files@;
        let kept_recips = keep_present(recips);
        let kept_files = keep_present(files);
        proof {
            assert forall|i: int| 0 <= i < kept_files@.len() implies (
            #[trigger] kept_files@[i]).wf() by {
                lemma_present_values_membership(files_in, i);
                let k = choose|k: int|
                    0 <= k < files_in.len() && files_in[k] == Some(present_values(files_in)[i]);
            }
        }
        Message {
            subject,
            note_text,
            message_type,
            date_received,
            conversation_id,
            flags,
            originator,
            recips: kept_recips,
            files: kept_files,
        }
    }

    /// A message with recipients, body, subject and attachments alone, as
    /// the boundary-free callers build it.
    pub fn new(
        to: Vec<&str>,
        body: Option<&str>,
        subject: Option<&str>,
        attach: Vec<FileDescriptor>,
    ) -> (m: Message)
        requires
            forall|i: int| 0 <= i < attach@.len() ==> (#[trigger] attach@[i]).wf(),
        ensures
            m.wf(),
            m.subject.deep_view() == subject.deep_view(),
            m.note_text.deep_view() == body.deep_view(),
            m.message_type is None,
            m.date_received is None,
            m.conversation_id is None,
            m.flags == 0,
            m.originator is None,
            m.recips@.len() == to@.len(),
            forall|i: int|
                0 <= i < to@.len() ==> {
                    let r = #[trigger] m.recips@[i];
                    &&& r.recip_class == 0
                    &&& r.name@ == Seq::<char>::empty()
                    &&& r.address matches Some(a) && a@ == to@[i]@
                    &&& r.entry_id@ == seq![0u8, 0u8, 0u8, 0u8]
                },
            m.files@ == attach@,
    {
        let mut recips: Vec<RecipientDescriptor> = Vec::new();
        let mut i: usize = 0;
        while i < to.len()
            invariant
                i <= to@.len(),
                recips@.len() == i,
                forall|j: int|
                    0 <= j < i ==> {
                        let r = #[trigger] recips@[j];
                        &&& r.recip_class == 0
                        &&& r.name@ == Seq::<char>::empty()
                        &&& r.address matches Some(a) && a@ == to@[j]@
                        &&& r.entry_id@ == seq![0u8, 0u8, 0u8, 0u8]
                    },
            decreases to@.len() - i,
        {
            recips.push(RecipientDescriptor::new(to[i]));
            i = i + 1;
        }
        Message {
            subject: match subject {
                Some(s) => Some(s.to_owned()),
                None => None,
            },
            note_text: match body {
                Some(b) => Some(b.to_owned()),
                None => None,
            },
            message_type: None,
            date_received: None,
            conversation_id: None,
            flags: 0,
            originator: None,
            recips,
            files: attach,
        }
    }

    /// The address the link is directed at: the first recipient's, or
    /// empty when there is none or it has none.
    pub open spec fn primary_address_chars(&self) -> Seq<char> {
        if self.recips@.len() == 0 {
            Seq::empty()
        } else {
            match self.recips@[0].address {
                Some(a) => a@,
                None => Seq::empty(),
            }
        }
    }

    /// The present addresses of a recipient list, in order.
    pub open spec fn address_list_chars(rs: Seq<RecipientDescriptor>) -> Seq<Seq<char>>
        decreases rs.len(),
    {
        if rs.len() == 0 {
            Seq::empty()
        } else {
            Self::address_list_chars(rs.drop_last()) + match rs.last().address {
                Some(a) => seq![a@],
                None => Seq::empty(),
            }
        }
    }

    /// The `cc` values: the addresses of every recipient after the first.
    pub open spec fn cc_list_chars(&self) -> Seq<Seq<char>> {
        if self.recips@.len() == 0 {
            Seq::empty()
        } else {
            Self::address_list_chars(self.recips@.drop_first())
        }
    }

    /// One `attach` parameter: its percent-encoded path after the key.
    pub open spec fn attach_param_chars(path: Seq<char>) -> Seq<char> {
        "attach="@ + url_encoded(encode_utf8(path))
    }

    /// The `attach` parameters, one per path, in order.
    pub open spec fn attach_params_chars(paths: Seq<Seq<char>>) -> Seq<Seq<char>>
        decreases paths.len(),
    {
        if paths.len() == 0 {
            Seq::empty()
        } else {
            Self::attach_params_chars(paths.drop_last()).push(
                Self::attach_param_chars(paths.last()),
            )
        }
    }

    /// The `key=value` parameters of the link, in their fixed order:
    /// `cc` (addresses joined by a comma, not encoded), `subject` and
    /// `body` (each percent-encoded, present only when the field is), and
    /// one `attach` per consolidated path (percent-encoded).
    pub open spec fn link_params_chars(&self, attachments: Seq<Seq<char>>) -> Seq<Seq<char>> {
        let cc = self.cc_list_chars();
        (if cc.len() > 0 {
            seq!["cc="@ + join_with(cc, ","@)]
        } else {
            Seq::empty()
        }) + (match self.subject {
            Some(s) => seq!["subject="@ + url_encoded(encode_utf8(s@))],
            None => Seq::empty(),
        }) + (match self.note_text {
            Some(b) => seq!["body="@ + url_encoded(encode_utf8(b@))],
            None => Seq::empty(),
        }) + Self::attach_params_chars(attachments)
    }

    /// The whole link: `mailto:`, the primary address, `?`, and the
    /// parameters joined by `&`.
    pub open spec fn mailto_link_chars(&self, attachments: Seq<Seq<char>>) -> Seq<char> {
        "mailto:"@ + self.primary_address_chars() + "?"@ + join_with(
            self.link_params_chars(attachments),
            "&"@,
        )
    }

    /// Build the `mailto:` link for this message, attaching the given
    /// already-consolidated paths.
    pub fn make_mailto_link(&self, attachments: &Vec<String>) -> (r: String)
        ensures
            r@ == self.mailto_link_chars(attachments.deep_view()),
    {
        let to: String = if self.recips.len() == 0 {
            String::new()
        } else {
            match &self.recips[0].address {
                Some(a) => a.clone(),
                None => String::new(),
            }
        };
        let mut cc: Vec<String> = Vec::new();
        let mut i: usize = 1;
        if self.recips.len() > 0 {
            while i < self.recips.len()
                invariant
                    1 <= i <= self.recips@.len(),
                    cc.deep_view() == Self::address_list_chars(
                        self.recips@.subrange(1, i as int),
                    ),
                decreases self.recips@.len() - i,
            {
                proof {
                    assert(self.recips@.subrange(1, i as int + 1).drop_last() =~= self.recips@
                        .subrange(1, i as int));
                    assert(self.recips@.subrange(1, i as int + 1).last() == self.recips@[i as int]);
                }
                match &self.recips[i].address {
                    Some(a) => {
                        cc.push(a.clone());
                        proof {
                            assert(cc.deep_view() =~= Self::address_list_chars(
                                self.recips@.subrange(1, i as int + 1),
                            ));
                        }
                    },
                    None => {
                        proof {
                            assert(cc.deep_view() =~= Self::address_list_chars(
                                self.recips@.subrange(1, i as int + 1),
                            ));
                        }
                    },
                }
                i = i + 1;
            }
            proof {
                assert(self.recips@.subrange(1, self.recips@.len() as int) =~= self.recips@
                    .drop_first());
            }
        }
        proof {
            assert(cc.deep_view() == self.cc_list_chars());
        }
        let ghost cc_parts: Seq<Seq<char>> = if self.cc_list_chars().len() > 0 {
            seq!["cc="@ + join_with(self.cc_list_chars(), ","@)]
        } else {
            Seq::empty()
        };
        let ghost subject_parts: Seq<Seq<char>> = match &self.subject {
            Some(s) => seq!["subject="@ + url_encoded(encode_utf8(s@))],
            None => Seq::empty(),
        };
        let ghost body_parts: Seq<Seq<char>> = match &self.note_text {
            Some(b) => seq!["body="@ + url_encoded(encode_utf8(b@))],
            None => Seq::empty(),
        };
        let mut parts: Vec<String> = Vec::new();
        if cc.len() > 0 {
            let mut p = String::from_str("cc=");
            let joined = join_strings(&cc, ",");
            p.append(joined.as_str());
            parts.push(p);
        }
        proof {
            assert(parts.deep_view() =~= cc_parts);
        }
        match &self.subject {
            Some(s) => {
                let mut p = String::from_str("subject=");
                let encoded = url_encode(s.as_str());
                p.append(encoded.as_str());
                parts.push(p);
            },
            None => {},
        }
        proof {
            assert(parts.deep_view() =~= cc_parts + subject_parts);
        }
        match &self.note_text {
            Some(b) => {
                let mut p = String::from_str("body=");
                let encoded = url_encode(b.as_str());
                p.append(encoded.as_str());
                parts.push(p);
            },
            None => {},
        }
        proof {
            assert(parts.deep_view() =~= cc_parts + subject_parts + body_parts);
        }
        let ghost head_parts = cc_parts + subject_parts + body_parts;
        let ghost paths = attachments.deep_view();
        let mut k: usize = 0;
        while k < attachments.len()
            invariant
                k <= attachments@.len(),
                paths == attachments.deep_view(),
                head_parts == cc_parts + subject_parts + body_parts,
                parts.deep_view() == head_parts + Self::attach_params_chars(paths.take(k as int)),
            decreases attachments@.len() - k,
        {
            let mut p = String::from_str("attach=");
            let encoded = url_encode(attachments[k].as_str());
            p.append(encoded.as_str());
            let ghost old_deep = parts.deep_view();
            parts.push(p);
            proof {
                assert(encoded@ == url_encoded(encode_utf8(attachments@[k as int]@)));
                assert(p@ == Self::attach_param_chars(attachments@[k as int]@));
                assert(paths.take(k as int + 1).drop_last() =~= paths.take(k as int));
                assert(paths.take(k as int + 1).last() == attachments@[k as int]@);
                assert(Self::attach_params_chars(paths.take(k as int + 1))
                    == Self::attach_params_chars(paths.take(k as int)).push(
                    Self::attach_param_chars(attachments@[k as int]@),
                ));
                assert(parts.deep_view() =~~= old_deep.push(p@));
                assert(old_deep.push(p@) =~= head_parts + Self::attach_params_chars(
                    paths.take(k as int + 1),
                ));
            }
            k = k + 1;
        }
        proof {
            assert(paths.take(paths.len() as int) =~= paths);
            assert(parts.deep_view() =~= self.link_params_chars(paths));
        }
        let joined = join_strings(&parts, "&");
        let mut r = String::from_str("mailto:");
        r.append(to.as_str());
        r.append("?");
        r.append(joined.as_str());
        proof {
            assert(to@ == self.primary_address_chars());
            assert(r@ =~= self.mailto_link_chars(paths));
        }
        r
    }

    /// The paths to attach, one per attachment in order: each the result
    /// of consolidating that attachment under the given temp root with
    /// the outcome its collaborator reported.
    pub fn ensure_attachments(&self, tmp_path: &Option<String>, outcomes: &Vec<
        ConsolidateOutcome,
    >) -> (r: Vec<String>)
        requires
            self.wf(),
            outcomes@.len() == self.files@.len(),
        ensures
            r@.len() == self.files@.len(),
            forall|i: int|
                0 <= i < r@.len() ==> (#[trigger] r@[i])@ == self.files@[i].consolidated_chars(
                    tmp_path.deep_view(),
                    outcomes@[i].content.deep_view(),
                    outcomes@[i].copy_ok,
                ),
    {
        let mut r: Vec<String> = Vec::new();
        let mut i: usize = 0;
        while i < self.files.len()
            invariant
                self.wf(),
                i <= self.files@.len(),
                outcomes@.len() == self.files@.len(),
                r@.len() == i,
                forall|j: int|
                    0 <= j < i ==> (#[trigger] r@[j])@ == self.files@[j].consolidated_chars(
                        tmp_path.deep_view(),
                        outcomes@[j].content.deep_view(),
                        outcomes@[j].copy_ok,
                    ),
            decreases self.files@.len() - i,
        {
            let path = self.files[i].consolidate_into(
                tmp_path,
                &outcomes[i].content,
                outcomes[i].copy_ok,
            );
            r.push(path);
            i = i + 1;
        }
        r
    }
}

} // verus!
