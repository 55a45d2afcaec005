use vstd::prelude::*;

use crate::content::{ContentError, ModuleView};
use crate::content_ops::{first_index, remove_first};

verus! {

/// Adding a curator to a curator group and then removing it gives back the state.
pub proof fn law_add_then_remove_curator_restores(s: ModuleView, curator_group_id: u64, curator_id: u64, curator_exists: bool)
    requires
        s.spec_add_curator_to_group(curator_group_id, curator_id, curator_exists) is Ok,
    ensures
        s.spec_add_curator_to_group(curator_group_id, curator_id, curator_exists)->Ok_0.spec_remove_curator_from_group(
            curator_group_id,
            curator_id,
        ) == Ok::<ModuleView, ContentError>(s),
{
    let s1 = s.spec_add_curator_to_group(curator_group_id, curator_id, curator_exists)->Ok_0;
    let g = s.curator_groups[curator_group_id];
    assert(g.curators.insert(curator_id).remove(curator_id) =~= g.curators);
    let s2 = s1.spec_remove_curator_from_group(curator_group_id, curator_id)->Ok_0;
    assert(s2.curator_groups =~= s.curator_groups);
    assert(s2 =~= s);
}

/// Removing the element just pushed onto a sequence that did not hold it gives back the
/// sequence.
proof fn lemma_remove_first_pushed(q: Seq<u64>, x: u64)
    requires
        !q.contains(x),
    ensures
        remove_first(q.push(x), x) == q,
{
    let p = q.push(x);
    assert(p[q.len() as int] == x);
    assert(p.contains(x));
    assert(0 <= q.len() < p.len() && p[q.len() as int] == x && forall|j: int| 0 <= j < q.len() ==> p[j] != x) by {
        assert forall|j: int| 0 <= j < q.len() implies p[j] != x by {
            assert(p[j] == q[j]);
        }
    }
    let f = first_index(p, x);
    if f < q.len() {
        assert(p[f] == q[f]);
    }
    assert(f == q.len());
    assert(p.remove(f) =~= q);
}

/// Creating a video and then deleting it gives back the state but for the next video ID, when
/// no video had the new video's ID yet.
pub proof fn law_create_then_delete_video_restores(s: ModuleView, channel_id: u64)
    requires
        s.spec_create_video(channel_id) is Ok,
        !s.videos.contains_key(s.next_video_id),
        !s.channels[channel_id].videos.contains(s.next_video_id),
    ensures
        s.spec_create_video(channel_id)->Ok_0.spec_delete_video(s.next_video_id) == Ok::<ModuleView, ContentError>(
            ModuleView { next_video_id: (s.next_video_id + 1) as u64, ..s },
        ),
{
    let s1 = s.spec_create_video(channel_id)->Ok_0;
    let id = s.next_video_id;
    lemma_remove_first_pushed(s.channels[channel_id].videos, id);
    let s2 = s1.spec_delete_video(id)->Ok_0;
    assert(s2.videos =~= s.videos);
    assert(s2.channels =~= s.channels);
    assert(s2 =~= ModuleView { next_video_id: (s.next_video_id + 1) as u64, ..s });
}

/// Changing a video's censorship status and changing it back gives back the state.
pub proof fn law_censor_then_uncensor_video_restores(s: ModuleView, video_id: u64, is_censored: bool)
    requires
        s.spec_update_video_censorship_status(video_id, is_censored) is Ok,
    ensures
        s.spec_update_video_censorship_status(video_id, is_censored)->Ok_0.spec_update_video_censorship_status(
            video_id,
            !is_censored,
        ) == Ok::<ModuleView, ContentError>(s),
{
    let s1 = s.spec_update_video_censorship_status(video_id, is_censored)->Ok_0;
    let s2 = s1.spec_update_video_censorship_status(video_id, !is_censored)->Ok_0;
    assert(s2.videos =~= s.videos);
    assert(s2 =~= s);
}

} // verus!
