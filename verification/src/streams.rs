//! The streams panel: which video, audio and text streams of the media are selected
//! for playback.
use vstd::prelude::*;

verus! {

/// The kinds of streams a media holds.
#[derive(Clone, Copy, Debug, PartialEq, Eq, Structural)]
pub enum StreamKind {
    Video,
    Audio,
    Text,
}

/// The stream selected for each kind, by identifier.
pub struct StreamsSelection {
    pub video_selected: Option<String>,
    pub audio_selected: Option<String>,
    pub text_selected: Option<String>,
}

/// The abstract value of an optional identifier.
pub open spec fn id_view(id: Option<String>) -> Option<Seq<char>> {
    match id {
        Some(i) => Some(i@),
        None => None,
    }
}

/// The identifiers of `ids`, in order, leaving out the missing ones.
pub open spec fn present_ids(ids: Seq<Option<Seq<char>>>) -> Seq<Seq<char>>
    decreases ids.len(),
{
    if ids.len() == 0 {
        Seq::empty()
    } else {
        present_ids(ids.drop_last()) + match ids.last() {
            Some(i) => seq![i],
            None => Seq::empty(),
        }
    }
}

/// The first of `ids`, if any.
pub open spec fn first_id(ids: Seq<String>) -> Option<Seq<char>> {
    if ids.len() > 0 {
        Some(ids[0]@)
    } else {
        None
    }
}

fn first_of(ids: &Vec<String>) -> (r: Option<String>)
    ensures
        id_view(r) == first_id(ids@),
{
    if ids.len() > 0 {
        Some(ids[0].clone())
    } else {
        None
    }
}

fn push_present(ids: &mut Vec<String>, id: &Option<String>)
    ensures
        final(ids)@.map_values(|i: String| i@) == old(ids)@.map_values(|i: String| i@) + match id_view(
            *id,
        ) {
            Some(i) => seq![i],
            None => Seq::<Seq<char>>::empty(),
        },
{
    let ghost before = ids@;
    if let Some(i) = id {
        ids.push(i.clone());
    }
    assert(ids@.map_values(|i: String| i@) =~= before.map_values(|i: String| i@) + match id_view(
        *id,
    ) {
        Some(i) => seq![i],
        None => Seq::<Seq<char>>::empty(),
    });
}

impl StreamsSelection {
    /// The identifier of the stream selected for `kind`.
    pub open spec fn selected_of(&self, kind: StreamKind) -> Option<Seq<char>> {
        match kind {
            StreamKind::Video => id_view(self.video_selected),
            StreamKind::Audio => id_view(self.audio_selected),
            StreamKind::Text => id_view(self.text_selected),
        }
    }

    /// Whether activating `stream` in the list of `kind` changes the selection: no
    /// stream of that kind is selected yet, or another one is.
    pub open spec fn selection_changes(&self, kind: StreamKind, stream: Seq<char>) -> bool {
        match self.selected_of(kind) {
            Some(current) => current != stream,
            None => true,
        }
    }

    pub fn new() -> (r: Self)
        ensures
            r.video_selected is None && r.audio_selected is None && r.text_selected is None,
    {
        StreamsSelection { video_selected: None, audio_selected: None, text_selected: None }
    }

    /// Forgets the streams of the previous media.
    pub fn cleanup(&mut self)
        ensures
            final(self).video_selected is None,
            final(self).audio_selected is None,
            final(self).text_selected is None,
    {
        self.video_selected = None;
        self.audio_selected = None;
        self.text_selected = None;
    }

    /// Selects the first stream of each kind of a new media, given the identifiers of
    /// its video, audio and text streams in the order they are listed.
    pub fn new_media(&mut self, video: &Vec<String>, audio: &Vec<String>, text: &Vec<String>)
        ensures
            id_view(final(self).video_selected) == first_id(video@),
            id_view(final(self).audio_selected) == first_id(audio@),
            id_view(final(self).text_selected) == first_id(text@),
    {
        self.video_selected = first_of(video);
        self.audio_selected = first_of(audio);
        self.text_selected = first_of(text);
    }

    /// The user activated `stream` in the list of `kind`: it becomes the selected
    /// stream of that kind. Returns whether the selection changed, in which case the
    /// streams are to be selected again for playback.
    pub fn select(&mut self, kind: StreamKind, stream: String) -> (changed: bool)
        ensures
            changed == old(self).selection_changes(kind, stream@),
            changed ==> final(self).selected_of(kind) == Some(stream@),
            !changed ==> final(self).selected_of(kind) == old(self).selected_of(kind),
            forall|other: StreamKind|
                other != kind ==> #[trigger] final(self).selected_of(other) == old(self).selected_of(
                    other,
                ),
    {
        let current = match kind {
            StreamKind::Video => &self.video_selected,
            StreamKind::Audio => &self.audio_selected,
            StreamKind::Text => &self.text_selected,
        };
        let changed = match current {
            Some(id) => *id != stream,
            None => true,
        };
        if changed {
            match kind {
                StreamKind::Video => self.video_selected = Some(stream),
                StreamKind::Audio => self.audio_selected = Some(stream),
                StreamKind::Text => self.text_selected = Some(stream),
            }
        }
        changed
    }

    /// The identifiers of the selected streams, video first, then audio, then text.
    pub fn selected_streams(&self) -> (ids: Vec<String>)
        ensures
            ids@.map_values(|i: String| i@) == present_ids(
                seq![
                    id_view(self.video_selected),
                    id_view(self.audio_selected),
                    id_view(self.text_selected),
                ],
            ),
    {
        let mut ids: Vec<String> = Vec::new();
        push_present(&mut ids, &self.video_selected);
        push_present(&mut ids, &self.audio_selected);
        push_present(&mut ids, &self.text_selected);
        proof {
            let all = seq![
                id_view(self.video_selected),
                id_view(self.audio_selected),
                id_view(self.text_selected),
            ];
            assert(all.drop_last().drop_last().drop_last() =~= Seq::<Option<Seq<char>>>::empty());
            reveal_with_fuel(present_ids, 4);
            assert(ids@.map_values(|i: String| i@) =~= present_ids(all));
        }
        ids
    }
}

} // verus!
