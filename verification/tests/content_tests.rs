use std::collections::{BTreeMap, BTreeSet};

use lib::content::{Channel, ChannelOwner, ContentActor, ContentError, Module, NewAsset, Nft, Video};
use lib::content_ops::{actor_to_content_owner, ensure_video_can_be_removed, not_implemented, pick_content_parameters_from_assets};
use lib::storage_types::DataObjectCreationParameters;

fn module() -> Module {
    let mut member_controller_accounts = BTreeMap::new();
    member_controller_accounts.insert(1u64, 100u64);
    Module {
        channels: BTreeMap::new(),
        videos: BTreeMap::new(),
        channel_categories: BTreeSet::new(),
        video_categories: BTreeSet::new(),
        curator_groups: BTreeMap::new(),
        next_channel_id: 0,
        next_video_id: 0,
        next_channel_category_id: 0,
        next_video_category_id: 0,
        next_curator_group_id: 0,
        member_controller_accounts,
        max_number_of_curators_per_group: 2,
    }
}

#[test]
fn lead_cannot_own_content() {
    assert_eq!(actor_to_content_owner(&ContentActor::Lead), Err(ContentError::ActorCannotBeLead));
    assert_eq!(actor_to_content_owner(&ContentActor::Member(4)), Ok(ChannelOwner::Member(4)));
    assert_eq!(actor_to_content_owner(&ContentActor::Curator(2, 9)), Ok(ChannelOwner::CuratorGroup(2)));
}

#[test]
fn member_controller_account() {
    let m = module();
    assert_eq!(m.ensure_member_controller_account_id(1), Ok(100));
    assert_eq!(m.ensure_member_controller_account_id(2), Err(ContentError::MemberProfileNotFound));
}

#[test]
fn nft_owner_account() {
    let mut m = module();
    m.create_channel(&ContentActor::Curator(0, 1), Some(55)).unwrap();
    m.create_channel(&ContentActor::Member(1), None).unwrap();
    let in_first = Video { in_channel: 0, in_series: None, is_censored: false };
    let in_second = Video { in_channel: 1, in_series: None, is_censored: false };
    let by_member = Nft { owner: ChannelOwner::Member(1) };
    let by_group = Nft { owner: ChannelOwner::CuratorGroup(0) };
    assert_eq!(m.ensure_owner_account_id(&in_first, &by_member), Ok(100));
    assert_eq!(m.ensure_owner_account_id(&in_first, &Nft { owner: ChannelOwner::Member(3) }), Err(ContentError::MemberProfileNotFound));
    assert_eq!(m.ensure_owner_account_id(&in_first, &by_group), Ok(55));
    assert_eq!(m.ensure_owner_account_id(&in_second, &by_group), Err(ContentError::RewardAccountIsNotSet));
    let nowhere = Video { in_channel: 9, in_series: None, is_censored: false };
    assert_eq!(m.ensure_owner_account_id(&nowhere, &by_group), Err(ContentError::RewardAccountIsNotSet));
}

#[test]
fn curator_groups() {
    let mut m = module();
    assert_eq!(m.set_curator_group_status(0, true), Err(ContentError::CuratorGroupDoesNotExist));
    m.create_curator_group();
    assert_eq!(m.next_curator_group_id, 1);
    assert!(!m.ensure_curator_group_exists(&0).unwrap().active);
    assert_eq!(m.set_curator_group_status(0, true), Ok(()));
    assert!(m.ensure_curator_group_exists(&0).unwrap().active);
    assert_eq!(m.add_curator_to_group(0, 5, false), Err(ContentError::CuratorIdInvalid));
    assert_eq!(m.add_curator_to_group(0, 5, true), Ok(()));
    assert_eq!(m.add_curator_to_group(0, 5, true), Err(ContentError::CuratorIsAlreadyAMemberOfGivenCuratorGroup));
    assert_eq!(m.add_curator_to_group(0, 6, true), Ok(()));
    assert_eq!(m.add_curator_to_group(0, 7, true), Err(ContentError::CuratorsPerGroupLimitReached));
    assert_eq!(m.remove_curator_from_group(0, 5), Ok(()));
    assert_eq!(m.remove_curator_from_group(0, 5), Err(ContentError::CuratorIsNotAMemberOfGivenCuratorGroup));
    assert_eq!(m.ensure_curator_group_exists(&0).unwrap().curators, [6u64].iter().cloned().collect::<BTreeSet<_>>());
    assert!(m.ensure_curator_group_under_given_id_exists(&1).is_err());
}

#[test]
fn channels_and_videos() {
    let mut m = module();
    assert_eq!(m.create_channel(&ContentActor::Lead, None), Err(ContentError::ActorCannotBeLead));
    assert_eq!(m.next_channel_id, 0);
    m.create_channel(&ContentActor::Member(1), None).unwrap();
    assert_eq!(m.create_video(3), Err(ContentError::ChannelDoesNotExist));
    m.create_video(0).unwrap();
    m.create_video(0).unwrap();
    assert_eq!(m.ensure_channel_exists(&0).unwrap().videos, vec![0, 1]);
    assert_eq!(m.update_video_censorship_status(1, false), Err(ContentError::VideoCensorshipStatusDidNotChange));
    assert_eq!(m.update_video_censorship_status(1, true), Ok(()));
    assert!(m.ensure_video_exists(&1).unwrap().is_censored);
    assert_eq!(m.delete_video(0), Ok(()));
    assert_eq!(m.ensure_channel_exists(&0).unwrap().videos, vec![1]);
    assert_eq!(m.delete_video(0), Err(ContentError::VideoDoesNotExist));
    m.videos.insert(7, Video { in_channel: 0, in_series: Some(1), is_censored: false });
    assert_eq!(m.delete_video(7), Err(ContentError::VideoInSeason));
    assert_eq!(m.update_channel_censorship_status(0, true), Ok(()));
    assert_eq!(m.update_channel_censorship_status(0, true), Err(ContentError::ChannelCensorshipStatusDidNotChange));
    assert_eq!(m.update_channel(0, Some(Some(8))), Ok(()));
    assert_eq!(m.ensure_channel_exists(&0).unwrap().reward_account, Some(8));
    assert_eq!(m.update_channel(0, None), Ok(()));
    assert_eq!(m.ensure_channel_exists(&0).unwrap().reward_account, Some(8));
    assert_eq!(m.update_channel(4, None), Err(ContentError::ChannelDoesNotExist));
}

#[test]
fn categories() {
    let mut m = module();
    assert_eq!(m.delete_channel_category(0), Err(ContentError::CategoryDoesNotExist));
    m.create_channel_category();
    m.create_video_category();
    m.create_video_category();
    assert_eq!(m.ensure_channel_category_exists(&0), Ok(()));
    assert_eq!(m.ensure_video_category_exists(&1), Ok(()));
    assert_eq!(m.delete_video_category(1), Ok(()));
    assert_eq!(m.ensure_video_category_exists(&1), Err(ContentError::CategoryDoesNotExist));
    assert_eq!(m.delete_channel_category(0), Ok(()));
}

#[test]
fn picks_uploads_from_assets() {
    let assets = vec![
        NewAsset::Urls(vec![vec![1]]),
        NewAsset::Upload(DataObjectCreationParameters { size: 3, ipfs_content_id: vec![7] }),
        NewAsset::Upload(DataObjectCreationParameters { size: 4, ipfs_content_id: vec![8] }),
    ];
    let picked = pick_content_parameters_from_assets(&assets);
    assert_eq!(picked.len(), 2);
    assert_eq!((picked[0].size, picked[1].ipfs_content_id.clone()), (3, vec![8]));
}

#[test]
fn small_checks() {
    assert_eq!(not_implemented(), Err(ContentError::FeatureNotImplemented));
    assert_eq!(ensure_video_can_be_removed(Video { in_channel: 0, in_series: None, is_censored: true }), Ok(()));
    let c = Channel { owner: ChannelOwner::Dao(1), videos: vec![2], is_censored: false, reward_account: None };
    assert_eq!(c.copy().videos, vec![2]);
}

#[test]
fn add_then_remove_curator_restores_group() {
    let mut m = module();
    m.create_curator_group();
    let before = m.curator_groups.get(&0).unwrap().curators.clone();
    m.add_curator_to_group(0, 7, true).unwrap();
    assert!(m.curator_groups.get(&0).unwrap().curators.contains(&7));
    m.remove_curator_from_group(0, 7).unwrap();
    assert_eq!(m.curator_groups.get(&0).unwrap().curators, before);
}

#[test]
fn create_then_delete_video_restores_channel() {
    let mut m = module();
    m.create_channel(&ContentActor::Member(1), None).unwrap();
    m.create_video(0).unwrap();
    let videos_before = m.channels.get(&0).unwrap().videos.clone();
    let next = m.next_video_id;
    m.create_video(0).unwrap();
    assert_eq!(m.channels.get(&0).unwrap().videos, vec![0, 1]);
    m.delete_video(next).unwrap();
    assert_eq!(m.channels.get(&0).unwrap().videos, videos_before);
    assert!(m.videos.get(&next).is_none());
    assert_eq!(m.next_video_id, next + 1);
}

#[test]
fn censor_then_uncensor_video_restores() {
    let mut m = module();
    m.create_channel(&ContentActor::Member(1), None).unwrap();
    m.create_video(0).unwrap();
    m.update_video_censorship_status(0, true).unwrap();
    assert!(m.videos.get(&0).unwrap().is_censored);
    m.update_video_censorship_status(0, false).unwrap();
    assert_eq!(m.videos.get(&0), Some(&Video { in_channel: 0, in_series: None, is_censored: false }));
}
