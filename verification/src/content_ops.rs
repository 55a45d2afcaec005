use vstd::prelude::*;
use std::collections::{BTreeMap, BTreeSet};

use crate::content::{
    Channel, ChannelOwner, ChannelView, ContentActor, ContentError, CuratorGroup, CuratorGroupId, CuratorGroupView,
    CuratorId, Module, ModuleView, NewAsset, NewAssetView, Nft, Video, VideoId, CategoryId, content_changes,
    spec_actor_to_content_owner, uploads_of,
};
use crate::primitives::{AccountId, ChannelId, MemberId};
use crate::storage_types::{DataObjectCreationParameters, DataObjectCreationParametersView, copy_bytes};

verus! {

/// The values of a list of assets.
pub open spec fn assets_view(assets: Seq<NewAsset>) -> Seq<NewAssetView> {
    assets.map_values(|a: NewAsset| a@)
}

/// Picks the content parameters of the uploads among the assets, in order.
pub fn pick_content_parameters_from_assets(assets: &Vec<NewAsset>) -> (r: Vec<DataObjectCreationParameters>)
    ensures
        r@.map_values(|p: DataObjectCreationParameters| p@) == uploads_of(assets_view(assets@)),
{
    let ghost av = assets_view(assets@);
    let mut r: Vec<DataObjectCreationParameters> = Vec::new();
    let mut i: usize = 0;
    while i < assets.len()
        invariant
            av == assets_view(assets@),
            i <= assets@.len(),
            r@.map_values(|p: DataObjectCreationParameters| p@) == uploads_of(av.take(i as int)),
        decreases assets@.len() - i,
    {
        proof {
            assert(av.take(i + 1).drop_last() =~= av.take(i as int));
            assert(av.take(i + 1).last() == assets@[i as int]@);
        }
        let ghost before = r@;
        match &assets[i] {
            NewAsset::Upload(p) => {
                r.push(DataObjectCreationParameters { size: p.size, ipfs_content_id: copy_bytes(&p.ipfs_content_id) });
                proof {
                    assert(r@.map_values(|p: DataObjectCreationParameters| p@) =~= before.map_values(
                        |p: DataObjectCreationParameters| p@,
                    ).push(p@));
                }
            },
            NewAsset::Urls(_) => {},
        }
        i = i + 1;
    }
    proof {
        crate::sorted::lemma_take_all(av);
    }
    r
}

/// The owner that content created by `actor` gets: the lead cannot own content.
pub fn actor_to_content_owner(actor: &ContentActor) -> (r: Result<ChannelOwner, ContentError>)
    ensures
        r == spec_actor_to_content_owner(*actor),
{
    match actor {
        ContentActor::Lead => Err(ContentError::ActorCannotBeLead),
        ContentActor::Curator(curator_group_id, _curator_id) => Ok(ChannelOwner::CuratorGroup(*curator_group_id)),
        ContentActor::Member(member_id) => Ok(ChannelOwner::Member(*member_id)),
    }
}

/// A feature that is not implemented yet.
pub fn not_implemented() -> (r: Result<(), ContentError>)
    ensures
        r == Err::<(), ContentError>(ContentError::FeatureNotImplemented),
{
    Err(ContentError::FeatureNotImplemented)
}

/// Ensure the video is not in a season, so that it can be removed.
pub fn ensure_video_can_be_removed(video: Video) -> (r: Result<(), ContentError>)
    ensures
        r == (if video.in_series is None {
            Ok::<(), ContentError>(())
        } else {
            Err(ContentError::VideoInSeason)
        }),
{
    if video.in_series.is_some() {
        return Err(ContentError::VideoInSeason);
    }
    Ok(())
}

impl ModuleView {
    /// The curator group `id` changed by `f`, when it exists and `check` passes on it.
    pub open spec fn curator_group_change(
        self,
        id: u64,
        check: spec_fn(CuratorGroupView) -> Result<(), ContentError>,
        f: spec_fn(CuratorGroupView) -> CuratorGroupView,
    ) -> Result<ModuleView, ContentError> {
        if !self.curator_groups.contains_key(id) {
            Err(ContentError::CuratorGroupDoesNotExist)
        } else {
            match check(self.curator_groups[id]) {
                Err(e) => Err(e),
                Ok(_) => Ok(ModuleView { curator_groups: self.curator_groups.insert(id, f(self.curator_groups[id])), ..self }),
            }
        }
    }

    /// The state after adding a curator to a curator group. `curator_exists`: whether the
    /// curator is a worker of the content working group.
    pub open spec fn spec_add_curator_to_group(self, curator_group_id: u64, curator_id: u64, curator_exists: bool) -> Result<
        ModuleView,
        ContentError,
    > {
        self.curator_group_change(
            curator_group_id,
            |g: CuratorGroupView|
                if !curator_exists {
                    Err(ContentError::CuratorIdInvalid)
                } else if g.curators.len() >= self.max_number_of_curators_per_group {
                    Err(ContentError::CuratorsPerGroupLimitReached)
                } else if g.curators.contains(curator_id) {
                    Err(ContentError::CuratorIsAlreadyAMemberOfGivenCuratorGroup)
                } else {
                    Ok(())
                },
            |g: CuratorGroupView| CuratorGroupView { curators: g.curators.insert(curator_id), ..g },
        )
    }

    /// The state after removing a curator from a curator group.
    pub open spec fn spec_remove_curator_from_group(self, curator_group_id: u64, curator_id: u64) -> Result<
        ModuleView,
        ContentError,
    > {
        self.curator_group_change(
            curator_group_id,
            |g: CuratorGroupView|
                if g.curators.contains(curator_id) {
                    Ok(())
                } else {
                    Err(ContentError::CuratorIsNotAMemberOfGivenCuratorGroup)
                },
            |g: CuratorGroupView| CuratorGroupView { curators: g.curators.remove(curator_id), ..g },
        )
    }

    /// The state after recording a new video of a channel under the next video ID.
    pub open spec fn spec_create_video(self, channel_id: u64) -> Result<ModuleView, ContentError> {
        if !self.channels.contains_key(channel_id) {
            Err(ContentError::ChannelDoesNotExist)
        } else {
            Ok(ModuleView {
                videos: self.videos.insert(
                    self.next_video_id,
                    Video { in_channel: channel_id, in_series: None, is_censored: false },
                ),
                next_video_id: (self.next_video_id + 1) as u64,
                channels: self.channels.insert(
                    channel_id,
                    ChannelView { videos: self.channels[channel_id].videos.push(self.next_video_id), ..self.channels[channel_id] },
                ),
                ..self
            })
        }
    }

    /// The state after deleting a video that is not in a season, which leaves its channel's
    /// video list.
    pub open spec fn spec_delete_video(self, video_id: u64) -> Result<ModuleView, ContentError> {
        if !self.videos.contains_key(video_id) {
            Err(ContentError::VideoDoesNotExist)
        } else if self.videos[video_id].in_series is Some {
            Err(ContentError::VideoInSeason)
        } else {
            let c = self.videos[video_id].in_channel;
            Ok(ModuleView {
                videos: self.videos.remove(video_id),
                channels: if self.channels.contains_key(c) {
                    self.channels.insert(
                        c,
                        ChannelView { videos: remove_first(self.channels[c].videos, video_id), ..self.channels[c] },
                    )
                } else {
                    self.channels
                },
                ..self
            })
        }
    }

    /// The state after changing a video's censorship status, which must change.
    pub open spec fn spec_update_video_censorship_status(self, video_id: u64, is_censored: bool) -> Result<
        ModuleView,
        ContentError,
    > {
        if !self.videos.contains_key(video_id) {
            Err(ContentError::VideoDoesNotExist)
        } else if self.videos[video_id].is_censored == is_censored {
            Err(ContentError::VideoCensorshipStatusDidNotChange)
        } else {
            Ok(ModuleView { videos: self.videos.insert(video_id, Video { is_censored, ..self.videos[video_id] }), ..self })
        }
    }
}

impl Module {
    /// Ensure the curator group under given id exists.
    pub fn ensure_curator_group_under_given_id_exists(&self, curator_group_id: &CuratorGroupId) -> (r: Result<
        (),
        ContentError,
    >)
        ensures
            r == (if self@.curator_groups.contains_key(*curator_group_id) {
                Ok::<(), ContentError>(())
            } else {
                Err(ContentError::CuratorGroupDoesNotExist)
            }),
    {
        if !self.curator_groups.contains_key(curator_group_id) {
            return Err(ContentError::CuratorGroupDoesNotExist);
        }
        Ok(())
    }

    /// Ensure the curator group under given id exists, return it.
    pub fn ensure_curator_group_exists(&self, curator_group_id: &CuratorGroupId) -> (r: Result<CuratorGroup, ContentError>)
        ensures
            match r {
                Ok(g) => self@.curator_groups.contains_key(*curator_group_id) && g@ == self@.curator_groups[*curator_group_id],
                Err(e) => !self@.curator_groups.contains_key(*curator_group_id) && e == ContentError::CuratorGroupDoesNotExist,
            },
    {
        if let Err(e) = self.ensure_curator_group_under_given_id_exists(curator_group_id) {
            return Err(e);
        }
        Ok(self.curator_groups.get(curator_group_id).unwrap().copy())
    }

    /// Ensure the channel exists, return it.
    pub fn ensure_channel_exists(&self, channel_id: &ChannelId) -> (r: Result<Channel, ContentError>)
        ensures
            match r {
                Ok(c) => self@.channels.contains_key(*channel_id) && c@ == self@.channels[*channel_id],
                Err(e) => !self@.channels.contains_key(*channel_id) && e == ContentError::ChannelDoesNotExist,
            },
    {
        match self.channels.get(channel_id) {
            Some(c) => Ok(c.copy()),
            None => Err(ContentError::ChannelDoesNotExist),
        }
    }

    /// Ensure the video exists, return it.
    pub fn ensure_video_exists(&self, video_id: &VideoId) -> (r: Result<Video, ContentError>)
        ensures
            r == (if self@.videos.contains_key(*video_id) {
                Ok::<Video, ContentError>(self@.videos[*video_id])
            } else {
                Err(ContentError::VideoDoesNotExist)
            }),
    {
        match self.videos.get(video_id) {
            Some(v) => Ok(*v),
            None => Err(ContentError::VideoDoesNotExist),
        }
    }

    /// Ensure the channel category exists.
    pub fn ensure_channel_category_exists(&self, channel_category_id: &CategoryId) -> (r: Result<(), ContentError>)
        ensures
            r == (if self@.channel_categories.contains(*channel_category_id) {
                Ok::<(), ContentError>(())
            } else {
                Err(ContentError::CategoryDoesNotExist)
            }),
    {
        if !self.channel_categories.contains(channel_category_id) {
            return Err(ContentError::CategoryDoesNotExist);
        }
        Ok(())
    }

    /// Ensure the video category exists.
    pub fn ensure_video_category_exists(&self, video_category_id: &CategoryId) -> (r: Result<(), ContentError>)
        ensures
            r == (if self@.video_categories.contains(*video_category_id) {
                Ok::<(), ContentError>(())
            } else {
                Err(ContentError::CategoryDoesNotExist)
            }),
    {
        if !self.video_categories.contains(video_category_id) {
            return Err(ContentError::CategoryDoesNotExist);
        }
        Ok(())
    }

    /// Ensure member controller account id exists, retrieve corresponding one.
    pub fn ensure_member_controller_account_id(&self, member_id: MemberId) -> (r: Result<AccountId, ContentError>)
        ensures
            r == self@.spec_member_controller_account_id(member_id),
    {
        match self.member_controller_accounts.get(&member_id) {
            Some(a) => Ok(*a),
            None => Err(ContentError::MemberProfileNotFound),
        }
    }

    /// Ensure owner account id exists, retrieve corresponding one: the controller account of a
    /// member owner, otherwise the reward account of the video's channel.
    pub fn ensure_owner_account_id(&self, video: &Video, owned_nft: &Nft) -> (r: Result<AccountId, ContentError>)
        ensures
            r == self@.spec_owner_account_id(*video, *owned_nft),
    {
        match owned_nft.owner {
            ChannelOwner::Member(member_id) => self.ensure_member_controller_account_id(member_id),
            _ => {
                let reward_account: Option<AccountId> = match self.channels.get(&video.in_channel) {
                    Some(c) => c.reward_account,
                    None => None,
                };
                if let Some(reward_account) = reward_account {
                    Ok(reward_account)
                } else {
                    Err(ContentError::RewardAccountIsNotSet)
                }
            },
        }
    }

    /// Add a new, inactive, empty curator group under the next curator group ID.
    pub fn create_curator_group(&mut self)
        requires
            old(self).next_curator_group_id < u64::MAX,
        ensures
            final(self)@ == (ModuleView {
                curator_groups: old(self)@.curator_groups.insert(
                    old(self)@.next_curator_group_id,
                    CuratorGroupView { curators: Set::empty(), active: false },
                ),
                next_curator_group_id: (old(self)@.next_curator_group_id + 1) as u64,
                ..old(self)@
            }),
    {
        let curator_group_id = self.next_curator_group_id;
        let group = CuratorGroup::default();
        let ghost prev = self.curator_groups@;
        self.curator_groups.insert(curator_group_id, group);
        proof {
            assert(self.curator_groups@.map_values(|g: CuratorGroup| g@) =~= prev.map_values(|g: CuratorGroup| g@).insert(
                curator_group_id,
                group@,
            ));
        }
        self.next_curator_group_id = curator_group_id + 1;
    }

    /// Stores a changed curator group.
    fn put_curator_group(&mut self, id: CuratorGroupId, group: CuratorGroup)
        ensures
            final(self)@ == (ModuleView { curator_groups: old(self)@.curator_groups.insert(id, group@), ..old(self)@ }),
    {
        let ghost prev = self.curator_groups@;
        self.curator_groups.insert(id, group);
        proof {
            assert(self.curator_groups@.map_values(|g: CuratorGroup| g@) =~= prev.map_values(|g: CuratorGroup| g@).insert(
                id,
                group@,
            ));
        }
    }

    /// Set the `active` status of a curator group.
    pub fn set_curator_group_status(&mut self, curator_group_id: CuratorGroupId, is_active: bool) -> (r: Result<
        (),
        ContentError,
    >)
        ensures
            content_changes(
                r,
                old(self)@,
                final(self)@,
                old(self)@.curator_group_change(
                    curator_group_id,
                    |g: CuratorGroupView| Ok(()),
                    |g: CuratorGroupView| CuratorGroupView { active: is_active, ..g },
                ),
            ),
    {
        let mut group = match self.ensure_curator_group_exists(&curator_group_id) {
            Err(e) => return Err(e),
            Ok(g) => g,
        };
        group.active = is_active;
        self.put_curator_group(curator_group_id, group);
        Ok(())
    }

    /// Add a curator to a curator group. `curator_exists`: whether the curator is a worker of
    /// the content working group.
    pub fn add_curator_to_group(&mut self, curator_group_id: CuratorGroupId, curator_id: CuratorId, curator_exists: bool) -> (r:
        Result<(), ContentError>)
        ensures
            content_changes(
                r,
                old(self)@,
                final(self)@,
                old(self)@.spec_add_curator_to_group(curator_group_id, curator_id, curator_exists),
            ),
    {
        let mut group = match self.ensure_curator_group_exists(&curator_group_id) {
            Err(e) => return Err(e),
            Ok(g) => g,
        };
        if !curator_exists {
            return Err(ContentError::CuratorIdInvalid);
        }
        proof {
            crate::sorted::lemma_set_len(&group.curators);
        }
        if crate::primitives::saturated_u64(group.curators.len()) >= self.max_number_of_curators_per_group {
            return Err(ContentError::CuratorsPerGroupLimitReached);
        }
        if group.curators.contains(&curator_id) {
            return Err(ContentError::CuratorIsAlreadyAMemberOfGivenCuratorGroup);
        }
        group.curators.insert(curator_id);
        self.put_curator_group(curator_group_id, group);
        Ok(())
    }

    /// Remove a curator from a curator group.
    pub fn remove_curator_from_group(&mut self, curator_group_id: CuratorGroupId, curator_id: CuratorId) -> (r: Result<
        (),
        ContentError,
    >)
        ensures
            content_changes(
                r,
                old(self)@,
                final(self)@,
                old(self)@.spec_remove_curator_from_group(curator_group_id, curator_id),
            ),
    {
        let mut group = match self.ensure_curator_group_exists(&curator_group_id) {
            Err(e) => return Err(e),
            Ok(g) => g,
        };
        if !group.curators.contains(&curator_id) {
            return Err(ContentError::CuratorIsNotAMemberOfGivenCuratorGroup);
        }
        group.curators.remove(&curator_id);
        self.put_curator_group(curator_group_id, group);
        Ok(())
    }

    /// Records a new channel owned by the actor under the next channel ID, once the channel's
    /// assets were stored.
    pub fn create_channel(&mut self, actor: &ContentActor, reward_account: Option<AccountId>) -> (r: Result<
        (),
        ContentError,
    >)
        requires
            old(self).next_channel_id < u64::MAX,
        ensures
            content_changes(
                r,
                old(self)@,
                final(self)@,
                match spec_actor_to_content_owner(*actor) {
                    Err(e) => Err(e),
                    Ok(owner) => Ok(ModuleView {
                        channels: old(self)@.channels.insert(
                            old(self)@.next_channel_id,
                            ChannelView { owner, videos: Seq::empty(), is_censored: false, reward_account },
                        ),
                        next_channel_id: (old(self)@.next_channel_id + 1) as u64,
                        ..old(self)@
                    }),
                },
            ),
    {
        let channel_owner = match actor_to_content_owner(actor) {
            Err(e) => return Err(e),
            Ok(o) => o,
        };
        let channel_id = self.next_channel_id;
        self.next_channel_id = channel_id + 1;
        let channel = Channel { owner: channel_owner, videos: Vec::new(), is_censored: false, reward_account };
        proof {
            assert(channel@.videos =~= Seq::empty());
        }
        let ghost prev = self.channels@;
        self.channels.insert(channel_id, channel);
        proof {
            assert(self.channels@.map_values(|c: Channel| c@) =~= prev.map_values(|c: Channel| c@).insert(channel_id, channel@));
        }
        Ok(())
    }

    /// Update the reward account of a channel (when one is given).
    pub fn update_channel(&mut self, channel_id: ChannelId, reward_account: Option<Option<AccountId>>) -> (r: Result<
        (),
        ContentError,
    >)
        ensures
            content_changes(
                r,
                old(self)@,
                final(self)@,
                if !old(self)@.channels.contains_key(channel_id) {
                    Err(ContentError::ChannelDoesNotExist)
                } else {
                    Ok(ModuleView {
                        channels: old(self)@.channels.insert(
                            channel_id,
                            match reward_account {
                                Some(a) => ChannelView { reward_account: a, ..old(self)@.channels[channel_id] },
                                None => old(self)@.channels[channel_id],
                            },
                        ),
                        ..old(self)@
                    })
                },
            ),
    {
        let mut channel = match self.ensure_channel_exists(&channel_id) {
            Err(e) => return Err(e),
            Ok(c) => c,
        };
        if let Some(a) = reward_account {
            channel.reward_account = a;
        }
        let ghost prev = self.channels@;
        self.channels.insert(channel_id, channel);
        proof {
            assert(self.channels@.map_values(|c: Channel| c@) =~= prev.map_values(|c: Channel| c@).insert(channel_id, channel@));
            assert(self@ =~= (ModuleView {
                channels: prev.map_values(|c: Channel| c@).insert(channel_id, channel@),
                ..old(self)@
            }));
        }
        Ok(())
    }

    /// Update the censorship status of a channel; it must change.
    pub fn update_channel_censorship_status(&mut self, channel_id: ChannelId, is_censored: bool) -> (r: Result<
        (),
        ContentError,
    >)
        ensures
            content_changes(
                r,
                old(self)@,
                final(self)@,
                if !old(self)@.channels.contains_key(channel_id) {
                    Err(ContentError::ChannelDoesNotExist)
                } else if old(self)@.channels[channel_id].is_censored == is_censored {
                    Err(ContentError::ChannelCensorshipStatusDidNotChange)
                } else {
                    Ok(ModuleView {
                        channels: old(self)@.channels.insert(
                            channel_id,
                            ChannelView { is_censored, ..old(self)@.channels[channel_id] },
                        ),
                        ..old(self)@
                    })
                },
            ),
    {
        let mut channel = match self.ensure_channel_exists(&channel_id) {
            Err(e) => return Err(e),
            Ok(c) => c,
        };
        if channel.is_censored == is_censored {
            return Err(ContentError::ChannelCensorshipStatusDidNotChange);
        }
        channel.is_censored = is_censored;
        let ghost prev = self.channels@;
        self.channels.insert(channel_id, channel);
        proof {
            assert(self.channels@.map_values(|c: Channel| c@) =~= prev.map_values(|c: Channel| c@).insert(channel_id, channel@));
        }
        Ok(())
    }

    /// Create a channel category under the next channel category ID.
    pub fn create_channel_category(&mut self)
        requires
            old(self).next_channel_category_id < u64::MAX,
        ensures
            final(self)@ == (ModuleView {
                channel_categories: old(self)@.channel_categories.insert(old(self)@.next_channel_category_id),
                next_channel_category_id: (old(self)@.next_channel_category_id + 1) as u64,
                ..old(self)@
            }),
    {
        let category_id = self.next_channel_category_id;
        self.next_channel_category_id = category_id + 1;
        self.channel_categories.insert(category_id);
    }

    /// Delete a channel category; it must exist.
    pub fn delete_channel_category(&mut self, category_id: CategoryId) -> (r: Result<(), ContentError>)
        ensures
            content_changes(
                r,
                old(self)@,
                final(self)@,
                if !old(self)@.channel_categories.contains(category_id) {
                    Err(ContentError::CategoryDoesNotExist)
                } else {
                    Ok(ModuleView { channel_categories: old(self)@.channel_categories.remove(category_id), ..old(self)@ })
                },
            ),
    {
        if let Err(e) = self.ensure_channel_category_exists(&category_id) {
            return Err(e);
        }
        self.channel_categories.remove(&category_id);
        Ok(())
    }

    /// Create a video category under the next video category ID.
    pub fn create_video_category(&mut self)
        requires
            old(self).next_video_category_id < u64::MAX,
        ensures
            final(self)@ == (ModuleView {
                video_categories: old(self)@.video_categories.insert(old(self)@.next_video_category_id),
                next_video_category_id: (old(self)@.next_video_category_id + 1) as u64,
                ..old(self)@
            }),
    {
        let category_id = self.next_video_category_id;
        self.next_video_category_id = category_id + 1;
        self.video_categories.insert(category_id);
    }

    /// Delete a video category; it must exist.
    pub fn delete_video_category(&mut self, category_id: CategoryId) -> (r: Result<(), ContentError>)
        ensures
            content_changes(
                r,
                old(self)@,
                final(self)@,
                if !old(self)@.video_categories.contains(category_id) {
                    Err(ContentError::CategoryDoesNotExist)
                } else {
                    Ok(ModuleView { video_categories: old(self)@.video_categories.remove(category_id), ..old(self)@ })
                },
            ),
    {
        if let Err(e) = self.ensure_video_category_exists(&category_id) {
            return Err(e);
        }
        self.video_categories.remove(&category_id);
        Ok(())
    }

    /// Records a new video of an existing channel under the next video ID, once the video's
    /// assets were stored.
    pub fn create_video(&mut self, channel_id: ChannelId) -> (r: Result<(), ContentError>)
        requires
            old(self).next_video_id < u64::MAX,
        ensures
            content_changes(r, old(self)@, final(self)@, old(self)@.spec_create_video(channel_id)),
    {
        let mut channel = match self.ensure_channel_exists(&channel_id) {
            Err(e) => return Err(e),
            Ok(c) => c,
        };
        let video_id = self.next_video_id;
        self.videos.insert(video_id, Video { in_channel: channel_id, in_series: None, is_censored: false });
        self.next_video_id = video_id + 1;
        channel.videos.push(video_id);
        let ghost prev = self.channels@;
        self.channels.insert(channel_id, channel);
        proof {
            assert(self.channels@.map_values(|c: Channel| c@) =~= prev.map_values(|c: Channel| c@).insert(channel_id, channel@));
        }
        Ok(())
    }

    /// Delete a video that is not in a season, removing it from its channel's video list.
    pub fn delete_video(&mut self, video_id: VideoId) -> (r: Result<(), ContentError>)
        ensures
            content_changes(r, old(self)@, final(self)@, old(self)@.spec_delete_video(video_id)),
    {
        let video = match self.ensure_video_exists(&video_id) {
            Err(e) => return Err(e),
            Ok(v) => v,
        };
        let channel_id = video.in_channel;
        if let Err(e) = ensure_video_can_be_removed(video) {
            return Err(e);
        }
        self.videos.remove(&video_id);
        let current = match self.channels.get(&channel_id) {
            Some(c) => Some(c.copy()),
            None => None,
        };
        if let Some(channel) = current {
            let mut channel = channel;
            let videos = remove_first_exec(&channel.videos, video_id);
            channel.videos = videos;
            let ghost prev = self.channels@;
            self.channels.insert(channel_id, channel);
            proof {
                assert(self.channels@.map_values(|c: Channel| c@) =~= prev.map_values(|c: Channel| c@).insert(
                    channel_id,
                    channel@,
                ));
            }
        }
        Ok(())
    }

    /// Update the censorship status of a video; it must change.
    pub fn update_video_censorship_status(&mut self, video_id: VideoId, is_censored: bool) -> (r: Result<(), ContentError>)
        ensures
            content_changes(r, old(self)@, final(self)@, old(self)@.spec_update_video_censorship_status(video_id, is_censored)),
    {
        let video = match self.ensure_video_exists(&video_id) {
            Err(e) => return Err(e),
            Ok(v) => v,
        };
        if video.is_censored == is_censored {
            return Err(ContentError::VideoCensorshipStatusDidNotChange);
        }
        self.videos.insert(video_id, Video { is_censored, ..video });
        Ok(())
    }
}

/// The sequence without its first occurrence of `x` (unchanged when `x` does not occur).
pub open spec fn remove_first(s: Seq<u64>, x: u64) -> Seq<u64> {
    if s.contains(x) {
        s.remove(first_index(s, x))
    } else {
        s
    }
}

/// The position of the first occurrence of `x` (meaningful when `x` occurs).
pub open spec fn first_index(s: Seq<u64>, x: u64) -> int {
    choose|i: int| 0 <= i < s.len() && s[i] == x && forall|j: int| 0 <= j < i ==> s[j] != x
}

/// Removes the first occurrence of `x` from a list.
pub fn remove_first_exec(v: &Vec<u64>, x: u64) -> (r: Vec<u64>)
    ensures
        r@ == remove_first(v@, x),
{
    let mut i: usize = 0;
    while i < v.len()
        invariant
            i <= v@.len(),
            forall|j: int| 0 <= j < i ==> v@[j] != x,
        decreases v@.len() - i,
    {
        if v[i] == x {
            let mut r = v.clone();
            r.remove(i);
            proof {
                assert(v@.contains(x));
                let f = first_index(v@, x);
                assert(0 <= f < v@.len() && v@[f] == x && forall|j: int| 0 <= j < f ==> v@[j] != x);
                if f < i {
                    assert(v@[f] != x);
                } else if f > i {
                    assert(v@[i as int] != x);
                }
                assert(f == i);
                assert(r@ =~= v@.remove(i as int));
            }
            return r;
        }
        i = i + 1;
    }
    let r = v.clone();
    proof {
        assert(r@ =~= v@);
        assert(!v@.contains(x));
    }
    r
}

} // verus!
