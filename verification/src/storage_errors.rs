use vstd::prelude::*;

verus! {

/// Storage module predefined errors.
#[derive(Clone, Copy, Debug, PartialEq, Eq, Structural)]
pub enum StorageError {
    /// Invalid CID length (must be 46 bytes)
    InvalidCidLength,
    /// Empty "data object creation" collection.
    NoObjectsOnUpload,
    /// The requested storage bucket doesn't exist.
    StorageBucketDoesntExist,
    /// The requested storage bucket is not bound to a bag.
    StorageBucketIsNotBoundToBag,
    /// The requested storage bucket is already bound to a bag.
    StorageBucketIsBoundToBag,
    /// Invalid operation with invites: there is no storage bucket invitation.
    NoStorageBucketInvitation,
    /// Invalid operation with invites: storage provider was already set.
    StorageProviderAlreadySet,
    /// Storage provider must be set.
    StorageProviderMustBeSet,
    /// Invalid operation with invites: another storage provider was invited.
    DifferentStorageProviderInvited,
    /// Invalid operation with invites: storage provider was already invited.
    InvitedStorageProvider,
    /// Storage bucket id collections are empty.
    StorageBucketIdCollectionsAreEmpty,
    /// Storage bucket id collection provided contradicts the existing dynamic bag creation policy.
    StorageBucketsNumberViolatesDynamicBagCreationPolicy,
    /// Distribution bucket id collection provided contradicts the existing dynamic bag creation policy.
    DistributionBucketsViolatesDynamicBagCreationPolicy,
    /// Upload data error: empty content ID provided.
    EmptyContentId,
    /// Upload data error: zero object size.
    ZeroObjectSize,
    /// Upload data error: invalid state bloat bond source account.
    InvalidStateBloatBondSourceAccount,
    /// Invalid storage provider for bucket.
    InvalidStorageProvider,
    /// Insufficient balance for an operation.
    InsufficientBalance,
    /// Data object doesn't exist.
    DataObjectDoesntExist,
    /// Uploading of the new object is blocked.
    UploadingBlocked,
    /// Data object id collection is empty.
    DataObjectIdCollectionIsEmpty,
    /// Cannot move objects within the same bag.
    SourceAndDestinationBagsAreEqual,
    /// Data object hash is part of the blacklist.
    DataObjectBlacklisted,
    /// Blacklist size limit exceeded.
    BlacklistSizeLimitExceeded,
    /// Max object size limit exceeded for voucher.
    VoucherMaxObjectSizeLimitExceeded,
    /// Max object number limit exceeded for voucher.
    VoucherMaxObjectNumberLimitExceeded,
    /// Object number limit for the storage bucket reached.
    StorageBucketObjectNumberLimitReached,
    /// Objects total size limit for the storage bucket reached.
    StorageBucketObjectSizeLimitReached,
    /// Insufficient module treasury balance for an operation.
    InsufficientTreasuryBalance,
    /// Cannot delete a non-empty storage bucket.
    CannotDeleteNonEmptyStorageBucket,
    /// The `data_object_ids` extrinsic parameter collection is empty.
    DataObjectIdParamsAreEmpty,
    /// The new `StorageBucketsPerBagLimit` number is too low.
    StorageBucketsPerBagLimitTooLow,
    /// The new `StorageBucketsPerBagLimit` number is too high.
    StorageBucketsPerBagLimitTooHigh,
    /// `StorageBucketsPerBagLimit` was exceeded for a bag.
    StorageBucketPerBagLimitExceeded,
    /// The storage bucket doesn't accept new bags.
    StorageBucketDoesntAcceptNewBags,
    /// Cannot create the dynamic bag: dynamic bag exists.
    DynamicBagExists,
    /// Dynamic bag doesn't exist.
    DynamicBagDoesntExist,
    /// Storage provider operator doesn't exist.
    StorageProviderOperatorDoesntExist,
    /// Invalid extrinsic call: data size fee changed.
    DataSizeFeeChanged,
    /// Invalid extrinsic call: data object state bloat bond changed.
    DataObjectStateBloatBondChanged,
    /// Cannot delete non empty dynamic bag.
    CannotDeleteNonEmptyDynamicBag,
    /// Max distribution bucket family number limit exceeded.
    MaxDistributionBucketFamilyNumberLimitExceeded,
    /// Distribution bucket family doesn't exist.
    DistributionBucketFamilyDoesntExist,
    /// Distribution bucket doesn't exist.
    DistributionBucketDoesntExist,
    /// Distribution bucket id collections are empty.
    DistributionBucketIdCollectionsAreEmpty,
    /// Distribution bucket doesn't accept new bags.
    DistributionBucketDoesntAcceptNewBags,
    /// Max distribution bucket number per bag limit exceeded.
    MaxDistributionBucketNumberPerBagLimitExceeded,
    /// Distribution bucket is not bound to a bag.
    DistributionBucketIsNotBoundToBag,
    /// Distribution bucket is bound to a bag.
    DistributionBucketIsBoundToBag,
    /// The new `DistributionBucketsPerBagLimit` number is too low.
    DistributionBucketsPerBagLimitTooLow,
    /// The new `DistributionBucketsPerBagLimit` number is too high.
    DistributionBucketsPerBagLimitTooHigh,
    /// Distribution provider operator doesn't exist.
    DistributionProviderOperatorDoesntExist,
    /// Distribution provider operator already invited.
    DistributionProviderOperatorAlreadyInvited,
    /// Distribution provider operator already set.
    DistributionProviderOperatorSet,
    /// No distribution bucket invitation.
    NoDistributionBucketInvitation,
    /// Invalid operations: must be a distribution provider operator for a bucket.
    MustBeDistributionProviderOperatorForBucket,
    /// Max number of pending invitations limit for a distribution bucket reached.
    MaxNumberOfPendingInvitationsLimitForDistributionBucketReached,
    /// Distribution family bound to a bag creation policy.
    DistributionFamilyBoundToBagCreationPolicy,
    /// Max data object size exceeded.
    MaxDataObjectSizeExceeded,
    /// Invalid transactor account ID for this bucket.
    InvalidTransactorAccount,
    /// Not allowed 'number of storage buckets'
    NumberOfStorageBucketsOutsideOfAllowedContraints,
    /// Not allowed 'number of distribution buckets'
    NumberOfDistributionBucketsOutsideOfAllowedContraints,
}

} // verus!
