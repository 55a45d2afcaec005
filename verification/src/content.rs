use vstd::prelude::*;
use std::collections::{BTreeMap, BTreeSet};

use crate::primitives::{AccountId, ChannelId, MemberId};
use crate::storage_types::{DataObjectCreationParameters, DataObjectCreationParametersView};

verus! {

/// A numeric identifier: the identifiers of the content directory are integers.
pub trait NumericIdentifier: Copy + Eq + Ord {}

impl NumericIdentifier for u64 {}

/// Curator group identifier.
pub type CuratorGroupId = u64;

/// Curator identifier.
pub type CuratorId = u64;

/// Video identifier.
pub type VideoId = u64;

/// Channel or video category identifier.
pub type CategoryId = u64;

/// Content directory errors.
#[derive(Clone, Copy, Debug, PartialEq, Eq, Structural)]
pub enum ContentError {
    /// The lead cannot own content; it must act as a member or a curator.
    ActorCannotBeLead,
    /// Category does not exist.
    CategoryDoesNotExist,
    /// Channel does not exist.
    ChannelDoesNotExist,
    /// Curator group does not exist.
    CuratorGroupDoesNotExist,
    /// Feature not implemented.
    FeatureNotImplemented,
    /// Member profile not found.
    MemberProfileNotFound,
    /// Reward account of the channel is not set.
    RewardAccountIsNotSet,
    /// Video does not exist.
    VideoDoesNotExist,
    /// Video is in a season and cannot be removed.
    VideoInSeason,
    /// The curator group already has the maximal number of curators.
    CuratorsPerGroupLimitReached,
    /// The curator is already a member of the curator group.
    CuratorIsAlreadyAMemberOfGivenCuratorGroup,
    /// The curator is not a member of the curator group.
    CuratorIsNotAMemberOfGivenCuratorGroup,
    /// The curator is not a worker of the content working group.
    CuratorIdInvalid,
    /// The channel already has the requested censorship status.
    ChannelCensorshipStatusDidNotChange,
    /// The video already has the requested censorship status.
    VideoCensorshipStatusDidNotChange,
}

/// The owner of a channel (or of an NFT).
#[derive(Clone, Copy, Debug, PartialEq, Eq, Structural)]
pub enum ChannelOwner {
    /// A member owns the channel.
    Member(MemberId),
    /// A curator group owns the channel.
    CuratorGroup(CuratorGroupId),
    /// A DAO owns the channel.
    Dao(u64),
}

/// The actor that makes a content directory call.
#[derive(Clone, Copy, Debug, PartialEq, Eq, Structural)]
pub enum ContentActor {
    /// A curator of a curator group.
    Curator(CuratorGroupId, CuratorId),
    /// A member.
    Member(MemberId),
    /// The content working group lead.
    Lead,
}

/// A group of curators.
#[derive(Debug)]
pub struct CuratorGroup {
    /// Curators of the group.
    pub curators: BTreeSet<CuratorId>,
    /// Whether the group is active.
    pub active: bool,
}

/// The mathematical value of a curator group.
pub struct CuratorGroupView {
    pub curators: Set<u64>,
    pub active: bool,
}

impl View for CuratorGroup {
    type V = CuratorGroupView;

    open spec fn view(&self) -> CuratorGroupView {
        CuratorGroupView { curators: self.curators@, active: self.active }
    }
}

impl CuratorGroup {
    /// A new, inactive, empty group.
    pub fn default() -> (r: CuratorGroup)
        ensures
            r@ == (CuratorGroupView { curators: Set::empty(), active: false }),
    {
        CuratorGroup { curators: BTreeSet::new(), active: false }
    }

    /// Copies the group.
    pub fn copy(&self) -> (r: CuratorGroup)
        ensures
            r@ == self@,
    {
        CuratorGroup { curators: self.curators.clone(), active: self.active }
    }
}

/// A channel.
#[derive(Debug)]
pub struct Channel {
    /// The owner of the channel.
    pub owner: ChannelOwner,
    /// The videos of the channel.
    pub videos: Vec<VideoId>,
    /// Whether the channel is censored.
    pub is_censored: bool,
    /// The account that collects the channel's rewards.
    pub reward_account: Option<AccountId>,
}

/// The mathematical value of a channel.
pub struct ChannelView {
    pub owner: ChannelOwner,
    pub videos: Seq<u64>,
    pub is_censored: bool,
    pub reward_account: Option<AccountId>,
}

impl View for Channel {
    type V = ChannelView;

    open spec fn view(&self) -> ChannelView {
        ChannelView {
            owner: self.owner,
            videos: self.videos@,
            is_censored: self.is_censored,
            reward_account: self.reward_account,
        }
    }
}

impl Channel {
    /// Copies the channel.
    pub fn copy(&self) -> (r: Channel)
        ensures
            r@ == self@,
    {
        let videos = self.videos.clone();
        proof {
            assert(videos@ =~= self.videos@);
        }
        Channel { owner: self.owner, videos, is_censored: self.is_censored, reward_account: self.reward_account }
    }
}

/// A video.
#[derive(Clone, Copy, Debug, PartialEq, Eq, Structural)]
pub struct Video {
    /// The channel of the video.
    pub in_channel: ChannelId,
    /// The series (season) the video belongs to, if any.
    pub in_series: Option<u64>,
    /// Whether the video is censored.
    pub is_censored: bool,
}

/// A non-fungible token issued for a video.
#[derive(Clone, Copy, Debug, PartialEq, Eq, Structural)]
pub struct Nft {
    /// The owner of the token.
    pub owner: ChannelOwner,
}

/// An asset of new content: either a content upload or URLs of content stored elsewhere.
pub enum NewAsset {
    /// Upload to the storage system.
    Upload(DataObjectCreationParameters),
    /// Multiple URLs of the same content.
    Urls(Vec<Vec<u8>>),
}

/// The state of the content directory module.
pub struct Module {
    /// Channels.
    pub channels: BTreeMap<ChannelId, Channel>,
    /// Videos.
    pub videos: BTreeMap<VideoId, Video>,
    /// Channel categories.
    pub channel_categories: BTreeSet<CategoryId>,
    /// Video categories.
    pub video_categories: BTreeSet<CategoryId>,
    /// Curator groups.
    pub curator_groups: BTreeMap<CuratorGroupId, CuratorGroup>,
    /// The next channel ID.
    pub next_channel_id: ChannelId,
    /// The next video ID.
    pub next_video_id: VideoId,
    /// The next channel category ID.
    pub next_channel_category_id: CategoryId,
    /// The next video category ID.
    pub next_video_category_id: CategoryId,
    /// The next curator group ID.
    pub next_curator_group_id: CuratorGroupId,
    /// The controller accounts of the members (the membership registry).
    pub member_controller_accounts: BTreeMap<MemberId, AccountId>,
    /// The maximum number of curators per group.
    pub max_number_of_curators_per_group: u64,
}

/// The mathematical value of the content directory module's state.
#[verifier::ext_equal]
pub struct ModuleView {
    pub channels: Map<u64, ChannelView>,
    pub videos: Map<u64, Video>,
    pub channel_categories: Set<u64>,
    pub video_categories: Set<u64>,
    pub curator_groups: Map<u64, CuratorGroupView>,
    pub next_channel_id: u64,
    pub next_video_id: u64,
    pub next_channel_category_id: u64,
    pub next_video_category_id: u64,
    pub next_curator_group_id: u64,
    pub member_controller_accounts: Map<u64, u64>,
    pub max_number_of_curators_per_group: u64,
}

impl View for Module {
    type V = ModuleView;

    open spec fn view(&self) -> ModuleView {
        ModuleView {
            channels: self.channels@.map_values(|c: Channel| c@),
            videos: self.videos@,
            channel_categories: self.channel_categories@,
            video_categories: self.video_categories@,
            curator_groups: self.curator_groups@.map_values(|g: CuratorGroup| g@),
            next_channel_id: self.next_channel_id,
            next_video_id: self.next_video_id,
            next_channel_category_id: self.next_channel_category_id,
            next_video_category_id: self.next_video_category_id,
            next_curator_group_id: self.next_curator_group_id,
            member_controller_accounts: self.member_controller_accounts@,
            max_number_of_curators_per_group: self.max_number_of_curators_per_group,
        }
    }
}

/// A call returned `r` and went from `before` to `after` as `expected` says: on success the
/// expected new state, on failure the expected error and no change.
pub open spec fn content_changes(
    r: Result<(), ContentError>,
    before: ModuleView,
    after: ModuleView,
    expected: Result<ModuleView, ContentError>,
) -> bool {
    match (r, expected) {
        (Ok(_), Ok(s)) => after == s,
        (Err(e), Err(f)) => e == f && after == before,
        _ => false,
    }
}

/// The owner that content created by `actor` gets: the lead cannot own content.
pub open spec fn spec_actor_to_content_owner(actor: ContentActor) -> Result<ChannelOwner, ContentError> {
    match actor {
        ContentActor::Lead => Err(ContentError::ActorCannotBeLead),
        ContentActor::Curator(group, _) => Ok(ChannelOwner::CuratorGroup(group)),
        ContentActor::Member(member) => Ok(ChannelOwner::Member(member)),
    }
}

/// The mathematical value of a new asset.
pub enum NewAssetView {
    Upload(DataObjectCreationParametersView),
    Urls(Seq<Seq<u8>>),
}

impl View for NewAsset {
    type V = NewAssetView;

    open spec fn view(&self) -> NewAssetView {
        match self {
            NewAsset::Upload(p) => NewAssetView::Upload(p@),
            NewAsset::Urls(u) => NewAssetView::Urls(u@.map_values(|x: Vec<u8>| x@)),
        }
    }
}

/// The content parameters of the uploads among the assets, in order.
pub open spec fn uploads_of(assets: Seq<NewAssetView>) -> Seq<DataObjectCreationParametersView>
    decreases assets.len(),
{
    if assets.len() == 0 {
        Seq::empty()
    } else {
        let prev = uploads_of(assets.drop_last());
        match assets.last() {
            NewAssetView::Upload(p) => prev.push(p),
            NewAssetView::Urls(_) => prev,
        }
    }
}

impl ModuleView {
    /// The controller account of a member, or `MemberProfileNotFound`.
    pub open spec fn spec_member_controller_account_id(self, member_id: MemberId) -> Result<AccountId, ContentError> {
        if self.member_controller_accounts.contains_key(member_id) {
            Ok(self.member_controller_accounts[member_id])
        } else {
            Err(ContentError::MemberProfileNotFound)
        }
    }

    /// The account of an NFT's owner: the controller account of a member owner, otherwise
    /// the reward account of the video's channel.
    pub open spec fn spec_owner_account_id(self, video: Video, owned_nft: Nft) -> Result<AccountId, ContentError> {
        match owned_nft.owner {
            ChannelOwner::Member(member_id) => self.spec_member_controller_account_id(member_id),
            _ => {
                let reward = if self.channels.contains_key(video.in_channel) {
                    self.channels[video.in_channel].reward_account
                } else {
                    None
                };
                match reward {
                    Some(a) => Ok(a),
                    None => Err(ContentError::RewardAccountIsNotSet),
                }
            },
        }
    }
}

} // verus!
