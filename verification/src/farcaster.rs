use vstd::prelude::*;
use crate::case::{lowercase, screaming_snake_case, snake_case};
use crate::text::text_eq;

verus! {

/// Farcaster id of a user.
pub type Fid = u64;

/// Kind of a reaction to a cast.
#[derive(Debug, Clone, Copy, PartialEq, Eq, Hash, Structural)]
pub enum ReactionKind {
    Like,
    Recast,
}

impl ReactionKind {
    /// The name of the kind.
    pub open spec fn name(self) -> Seq<char> {
        match self {
            ReactionKind::Like => "like"@,
            ReactionKind::Recast => "recast"@,
        }
    }

    /// The identifier of the variant in the type's declaration.
    pub open spec fn ident(self) -> Seq<char> {
        match self {
            ReactionKind::Like => "Like"@,
            ReactionKind::Recast => "Recast"@,
        }
    }

    /// Each kind is named by its identifier in small letters.
    pub proof fn lemma_names_follow_idents()
        ensures
            forall|k: ReactionKind| #[trigger] k.name() == lowercase(k.ident()),
    {
        assert forall|k: ReactionKind| #[trigger] k.name() == lowercase(k.ident()) by {
            match k {
                ReactionKind::Like => {
                    reveal_strlit("Like");
                    reveal_strlit("like");
                    let s = "Like"@;
                    assert(s =~= seq!['L', 'i', 'k', 'e']);
                    assert("like"@ =~= seq!['l', 'i', 'k', 'e']);
                    assert(ReactionKind::Like.name() =~= lowercase(s));
                },
                ReactionKind::Recast => {
                    reveal_strlit("Recast");
                    reveal_strlit("recast");
                    let s = "Recast"@;
                    assert(s =~= seq!['R', 'e', 'c', 'a', 's', 't']);
                    assert("recast"@ =~= seq!['r', 'e', 'c', 'a', 's', 't']);
                    assert(ReactionKind::Recast.name() =~= lowercase(s));
                },
            }
        }
    }

    /// The name of the kind, as a text.
    pub fn as_str(&self) -> (text: &'static str)
        ensures
            text@ == self.name(),
            text@ == lowercase(self.ident()),
    {
        proof {
            ReactionKind::lemma_names_follow_idents();
            assert(self.name() == lowercase(self.ident()));
        }
        match self {
            ReactionKind::Like => "like",
            ReactionKind::Recast => "recast",
        }
    }

}

/// Approval state of a signer.
#[derive(Debug, Clone, Copy, PartialEq, Eq, Hash, Structural)]
pub enum SignerStatus {
    Generated,
    PendingApproval,
    Approved,
    Revoked,
}

impl SignerStatus {
    /// The name of the kind.
    pub open spec fn name(self) -> Seq<char> {
        match self {
            SignerStatus::Generated => "generated"@,
            SignerStatus::PendingApproval => "pending_approval"@,
            SignerStatus::Approved => "approved"@,
            SignerStatus::Revoked => "revoked"@,
        }
    }

    /// The identifier of the variant in the type's declaration.
    pub open spec fn ident(self) -> Seq<char> {
        match self {
            SignerStatus::Generated => "Generated"@,
            SignerStatus::PendingApproval => "PendingApproval"@,
            SignerStatus::Approved => "Approved"@,
            SignerStatus::Revoked => "Revoked"@,
        }
    }

    proof fn lemma_name_of_generated()
        ensures
            SignerStatus::Generated.name() == snake_case(SignerStatus::Generated.ident()),
    {
        reveal_strlit("Generated");
        reveal_strlit("generated");
        let s = "Generated"@;
        assert(s =~= seq!['G', 'e', 'n', 'e', 'r', 'a', 't', 'e', 'd']);
        assert(snake_case(s.take(0)) =~= Seq::<char>::empty());
        assert(s.take(1).drop_last() =~= s.take(0));
        assert(snake_case(s.take(1)) =~= seq!['g']);
        assert(s.take(2).drop_last() =~= s.take(1));
        assert(snake_case(s.take(2)) =~= seq!['g', 'e']);
        assert(s.take(3).drop_last() =~= s.take(2));
        assert(snake_case(s.take(3)) =~= seq!['g', 'e', 'n']);
        assert(s.take(4).drop_last() =~= s.take(3));
        assert(snake_case(s.take(4)) =~= seq!['g', 'e', 'n', 'e']);
        assert(s.take(5).drop_last() =~= s.take(4));
        assert(snake_case(s.take(5)) =~= seq!['g', 'e', 'n', 'e', 'r']);
        assert(s.take(6).drop_last() =~= s.take(5));
        assert(snake_case(s.take(6)) =~= seq!['g', 'e', 'n', 'e', 'r', 'a']);
        assert(s.take(7).drop_last() =~= s.take(6));
        assert(snake_case(s.take(7)) =~= seq!['g', 'e', 'n', 'e', 'r', 'a', 't']);
        assert(s.take(8).drop_last() =~= s.take(7));
        assert(snake_case(s.take(8)) =~= seq!['g', 'e', 'n', 'e', 'r', 'a', 't', 'e']);
        assert(s.take(9).drop_last() =~= s.take(8));
        assert(snake_case(s.take(9)) =~= seq!['g', 'e', 'n', 'e', 'r', 'a', 't', 'e', 'd']);
        assert(s.take(9) =~= s);
        assert("generated"@ =~= seq!['g', 'e', 'n', 'e', 'r', 'a', 't', 'e', 'd']);
        assert(SignerStatus::Generated.name() =~= snake_case(s));
    }

    proof fn lemma_name_of_pending_approval()
        ensures
            SignerStatus::PendingApproval.name() == snake_case(SignerStatus::PendingApproval.ident()),
    {
        reveal_strlit("PendingApproval");
        reveal_strlit("pending_approval");
        let s = "PendingApproval"@;
        assert(s =~= seq!['P', 'e', 'n', 'd', 'i', 'n', 'g', 'A', 'p', 'p', 'r', 'o', 'v', 'a', 'l']);
        assert(snake_case(s.take(0)) =~= Seq::<char>::empty());
        assert(s.take(1).drop_last() =~= s.take(0));
        assert(snake_case(s.take(1)) =~= seq!['p']);
        assert(s.take(2).drop_last() =~= s.take(1));
        assert(snake_case(s.take(2)) =~= seq!['p', 'e']);
        assert(s.take(3).drop_last() =~= s.take(2));
        assert(snake_case(s.take(3)) =~= seq!['p', 'e', 'n']);
        assert(s.take(4).drop_last() =~= s.take(3));
        assert(snake_case(s.take(4)) =~= seq!['p', 'e', 'n', 'd']);
        assert(s.take(5).drop_last() =~= s.take(4));
        assert(snake_case(s.take(5)) =~= seq!['p', 'e', 'n', 'd', 'i']);
        assert(s.take(6).drop_last() =~= s.take(5));
        assert(snake_case(s.take(6)) =~= seq!['p', 'e', 'n', 'd', 'i', 'n']);
        assert(s.take(7).drop_last() =~= s.take(6));
        assert(snake_case(s.take(7)) =~= seq!['p', 'e', 'n', 'd', 'i', 'n', 'g']);
        assert(s.take(8).drop_last() =~= s.take(7));
        assert(snake_case(s.take(8)) =~= seq!['p', 'e', 'n', 'd', 'i', 'n', 'g', '_', 'a']);
        assert(s.take(9).drop_last() =~= s.take(8));
        assert(snake_case(s.take(9)) =~= seq!['p', 'e', 'n', 'd', 'i', 'n', 'g', '_', 'a', 'p']);
        assert(s.take(10).drop_last() =~= s.take(9));
        assert(snake_case(s.take(10)) =~= seq!['p', 'e', 'n', 'd', 'i', 'n', 'g', '_', 'a', 'p', 'p']);
        assert(s.take(11).drop_last() =~= s.take(10));
        assert(snake_case(s.take(11)) =~= seq!['p', 'e', 'n', 'd', 'i', 'n', 'g', '_', 'a', 'p', 'p', 'r']);
        assert(s.take(12).drop_last() =~= s.take(11));
        assert(snake_case(s.take(12)) =~= seq!['p', 'e', 'n', 'd', 'i', 'n', 'g', '_', 'a', 'p', 'p', 'r', 'o']);
        assert(s.take(13).drop_last() =~= s.take(12));
        assert(snake_case(s.take(13)) =~= seq!['p', 'e', 'n', 'd', 'i', 'n', 'g', '_', 'a', 'p', 'p', 'r', 'o', 'v']);
        assert(s.take(14).drop_last() =~= s.take(13));
        assert(snake_case(s.take(14)) =~= seq!['p', 'e', 'n', 'd', 'i', 'n', 'g', '_', 'a', 'p', 'p', 'r', 'o', 'v', 'a']);
        assert(s.take(15).drop_last() =~= s.take(14));
        assert(snake_case(s.take(15)) =~= seq!['p', 'e', 'n', 'd', 'i', 'n', 'g', '_', 'a', 'p', 'p', 'r', 'o', 'v', 'a', 'l']);
        assert(s.take(15) =~= s);
        assert("pending_approval"@ =~= seq!['p', 'e', 'n', 'd', 'i', 'n', 'g', '_', 'a', 'p', 'p', 'r', 'o', 'v', 'a', 'l']);
        assert(SignerStatus::PendingApproval.name() =~= snake_case(s));
    }

    proof fn lemma_name_of_approved()
        ensures
            SignerStatus::Approved.name() == snake_case(SignerStatus::Approved.ident()),
    {
        reveal_strlit("Approved");
        reveal_strlit("approved");
        let s = "Approved"@;
        assert(s =~= seq!['A', 'p', 'p', 'r', 'o', 'v', 'e', 'd']);
        assert(snake_case(s.take(0)) =~= Seq::<char>::empty());
        assert(s.take(1).drop_last() =~= s.take(0));
        assert(snake_case(s.take(1)) =~= seq!['a']);
        assert(s.take(2).drop_last() =~= s.take(1));
        assert(snake_case(s.take(2)) =~= seq!['a', 'p']);
        assert(s.take(3).drop_last() =~= s.take(2));
        assert(snake_case(s.take(3)) =~= seq!['a', 'p', 'p']);
        assert(s.take(4).drop_last() =~= s.take(3));
        assert(snake_case(s.take(4)) =~= seq!['a', 'p', 'p', 'r']);
        assert(s.take(5).drop_last() =~= s.take(4));
        assert(snake_case(s.take(5)) =~= seq!['a', 'p', 'p', 'r', 'o']);
        assert(s.take(6).drop_last() =~= s.take(5));
        assert(snake_case(s.take(6)) =~= seq!['a', 'p', 'p', 'r', 'o', 'v']);
        assert(s.take(7).drop_last() =~= s.take(6));
        assert(snake_case(s.take(7)) =~= seq!['a', 'p', 'p', 'r', 'o', 'v', 'e']);
        assert(s.take(8).drop_last() =~= s.take(7));
        assert(snake_case(s.take(8)) =~= seq!['a', 'p', 'p', 'r', 'o', 'v', 'e', 'd']);
        assert(s.take(8) =~= s);
        assert("approved"@ =~= seq!['a', 'p', 'p', 'r', 'o', 'v', 'e', 'd']);
        assert(SignerStatus::Approved.name() =~= snake_case(s));
    }

    proof fn lemma_name_of_revoked()
        ensures
            SignerStatus::Revoked.name() == snake_case(SignerStatus::Revoked.ident()),
    {
        reveal_strlit("Revoked");
        reveal_strlit("revoked");
        let s = "Revoked"@;
        assert(s =~= seq!['R', 'e', 'v', 'o', 'k', 'e', 'd']);
        assert(snake_case(s.take(0)) =~= Seq::<char>::empty());
        assert(s.take(1).drop_last() =~= s.take(0));
        assert(snake_case(s.take(1)) =~= seq!['r']);
        assert(s.take(2).drop_last() =~= s.take(1));
        assert(snake_case(s.take(2)) =~= seq!['r', 'e']);
        assert(s.take(3).drop_last() =~= s.take(2));
        assert(snake_case(s.take(3)) =~= seq!['r', 'e', 'v']);
        assert(s.take(4).drop_last() =~= s.take(3));
        assert(snake_case(s.take(4)) =~= seq!['r', 'e', 'v', 'o']);
        assert(s.take(5).drop_last() =~= s.take(4));
        assert(snake_case(s.take(5)) =~= seq!['r', 'e', 'v', 'o', 'k']);
        assert(s.take(6).drop_last() =~= s.take(5));
        assert(snake_case(s.take(6)) =~= seq!['r', 'e', 'v', 'o', 'k', 'e']);
        assert(s.take(7).drop_last() =~= s.take(6));
        assert(snake_case(s.take(7)) =~= seq!['r', 'e', 'v', 'o', 'k', 'e', 'd']);
        assert(s.take(7) =~= s);
        assert("revoked"@ =~= seq!['r', 'e', 'v', 'o', 'k', 'e', 'd']);
        assert(SignerStatus::Revoked.name() =~= snake_case(s));
    }

    /// Each kind is named by its identifier in snake case.
    pub proof fn lemma_names_follow_idents()
        ensures
            forall|k: SignerStatus| #[trigger] k.name() == snake_case(k.ident()),
    {
        assert forall|k: SignerStatus| #[trigger] k.name() == snake_case(k.ident()) by {
            match k {
                SignerStatus::Generated => {
                    SignerStatus::lemma_name_of_generated();
                },
                SignerStatus::PendingApproval => {
                    SignerStatus::lemma_name_of_pending_approval();
                },
                SignerStatus::Approved => {
                    SignerStatus::lemma_name_of_approved();
                },
                SignerStatus::Revoked => {
                    SignerStatus::lemma_name_of_revoked();
                },
            }
        }
    }

    /// The name of the kind, as a text.
    pub fn as_str(&self) -> (text: &'static str)
        ensures
            text@ == self.name(),
            text@ == snake_case(self.ident()),
    {
        proof {
            SignerStatus::lemma_names_follow_idents();
            assert(self.name() == snake_case(self.ident()));
        }
        match self {
            SignerStatus::Generated => "generated",
            SignerStatus::PendingApproval => "pending_approval",
            SignerStatus::Approved => "approved",
            SignerStatus::Revoked => "revoked",
        }
    }

    /// Distinct kinds have distinct names.
    pub proof fn lemma_name_injective(a: SignerStatus, b: SignerStatus)
        requires
            a.name() == b.name(),
        ensures
            a == b,
    {
        reveal_strlit("generated");
        reveal_strlit("pending_approval");
        reveal_strlit("approved");
        reveal_strlit("revoked");
        assert("generated"@.len() == 9);
        assert("pending_approval"@.len() == 16);
        assert("approved"@.len() == 8);
        assert("revoked"@.len() == 7);
    }

    /// The kind whose name is `text`, where there is one.
    pub fn from_name(text: &str) -> (r: Option<SignerStatus>)
        ensures
            r matches Some(k) ==> k.name() == text@,
            r is None ==> forall|k: SignerStatus| k.name() != text@,
            forall|k: SignerStatus| (r == Some(k)) <==> k.name() == text@,
    {
        let r = if text_eq(text, "generated") {
            Some(SignerStatus::Generated)
        } else if text_eq(text, "pending_approval") {
            Some(SignerStatus::PendingApproval)
        } else if text_eq(text, "approved") {
            Some(SignerStatus::Approved)
        } else if text_eq(text, "revoked") {
            Some(SignerStatus::Revoked)
        } else {
            None
        };
        proof {
            if let Some(j) = r {
                assert forall|k: SignerStatus| k.name() == text@ implies k == j by {
                    SignerStatus::lemma_name_injective(k, j);
                }
            }
        }
        r
    }
}

/// What a signer may do on the user's behalf.
#[derive(Debug, Clone, Copy, PartialEq, Eq, Hash, Structural)]
pub enum SignerPermission {
    WriteAll,
    ReadOnly,
    NoPermission,
    PublishCast,
    DeleteCast,
    PublishReaction,
    DeleteReaction,
    UpdateProfile,
    FollowUser,
    UnfollowUser,
    FollowChannel,
    UnfollowChannel,
    AddVerification,
    RemoveVerification,
    WriteFrameAction,
}

impl SignerPermission {
    /// The name of the kind.
    pub open spec fn name(self) -> Seq<char> {
        match self {
            SignerPermission::WriteAll => "WRITE_ALL"@,
            SignerPermission::ReadOnly => "READ_ONLY"@,
            SignerPermission::NoPermission => "NONE"@,
            SignerPermission::PublishCast => "PUBLISH_CAST"@,
            SignerPermission::DeleteCast => "DELETE_CAST"@,
            SignerPermission::PublishReaction => "PUBLISH_REACTION"@,
            SignerPermission::DeleteReaction => "DELETE_REACTION"@,
            SignerPermission::UpdateProfile => "UPDATE_PROFILE"@,
            SignerPermission::FollowUser => "FOLLOW_USER"@,
            SignerPermission::UnfollowUser => "UNFOLLOW_USER"@,
            SignerPermission::FollowChannel => "FOLLOW_CHANNEL"@,
            SignerPermission::UnfollowChannel => "UNFOLLOW_CHANNEL"@,
            SignerPermission::AddVerification => "ADD_VERIFICATION"@,
            SignerPermission::RemoveVerification => "REMOVE_VERIFICATION"@,
            SignerPermission::WriteFrameAction => "WRITE_FRAME_ACTION"@,
        }
    }

    /// The identifier of the variant; `NoPermission` is the permission whose
    /// wire identifier is `None`, a name this library cannot declare.
    pub open spec fn ident(self) -> Seq<char> {
        match self {
            SignerPermission::WriteAll => "WriteAll"@,
            SignerPermission::ReadOnly => "ReadOnly"@,
            SignerPermission::NoPermission => "None"@,
            SignerPermission::PublishCast => "PublishCast"@,
            SignerPermission::DeleteCast => "DeleteCast"@,
            SignerPermission::PublishReaction => "PublishReaction"@,
            SignerPermission::DeleteReaction => "DeleteReaction"@,
            SignerPermission::UpdateProfile => "UpdateProfile"@,
            SignerPermission::FollowUser => "FollowUser"@,
            SignerPermission::UnfollowUser => "UnfollowUser"@,
            SignerPermission::FollowChannel => "FollowChannel"@,
            SignerPermission::UnfollowChannel => "UnfollowChannel"@,
            SignerPermission::AddVerification => "AddVerification"@,
            SignerPermission::RemoveVerification => "RemoveVerification"@,
            SignerPermission::WriteFrameAction => "WriteFrameAction"@,
        }
    }

    proof fn lemma_name_of_write_all()
        ensures
            SignerPermission::WriteAll.name() == screaming_snake_case(SignerPermission::WriteAll.ident()),
    {
        reveal_strlit("WriteAll");
        reveal_strlit("WRITE_ALL");
        let s = "WriteAll"@;
        assert(s =~= seq!['W', 'r', 'i', 't', 'e', 'A', 'l', 'l']);
        assert(snake_case(s.take(0)) =~= Seq::<char>::empty());
        assert(s.take(1).drop_last() =~= s.take(0));
        assert(snake_case(s.take(1)) =~= seq!['w']);
        assert(s.take(2).drop_last() =~= s.take(1));
        assert(snake_case(s.take(2)) =~= seq!['w', 'r']);
        assert(s.take(3).drop_last() =~= s.take(2));
        assert(snake_case(s.take(3)) =~= seq!['w', 'r', 'i']);
        assert(s.take(4).drop_last() =~= s.take(3));
        assert(snake_case(s.take(4)) =~= seq!['w', 'r', 'i', 't']);
        assert(s.take(5).drop_last() =~= s.take(4));
        assert(snake_case(s.take(5)) =~= seq!['w', 'r', 'i', 't', 'e']);
        assert(s.take(6).drop_last() =~= s.take(5));
        assert(snake_case(s.take(6)) =~= seq!['w', 'r', 'i', 't', 'e', '_', 'a']);
        assert(s.take(7).drop_last() =~= s.take(6));
        assert(snake_case(s.take(7)) =~= seq!['w', 'r', 'i', 't', 'e', '_', 'a', 'l']);
        assert(s.take(8).drop_last() =~= s.take(7));
        assert(snake_case(s.take(8)) =~= seq!['w', 'r', 'i', 't', 'e', '_', 'a', 'l', 'l']);
        assert(s.take(8) =~= s);
        assert("WRITE_ALL"@ =~= seq!['W', 'R', 'I', 'T', 'E', '_', 'A', 'L', 'L']);
        assert(SignerPermission::WriteAll.name() =~= screaming_snake_case(s));
    }

    proof fn lemma_name_of_read_only()
        ensures
            SignerPermission::ReadOnly.name() == screaming_snake_case(SignerPermission::ReadOnly.ident()),
    {
        reveal_strlit("ReadOnly");
        reveal_strlit("READ_ONLY");
        let s = "ReadOnly"@;
        assert(s =~= seq!['R', 'e', 'a', 'd', 'O', 'n', 'l', 'y']);
        assert(snake_case(s.take(0)) =~= Seq::<char>::empty());
        assert(s.take(1).drop_last() =~= s.take(0));
        assert(snake_case(s.take(1)) =~= seq!['r']);
        assert(s.take(2).drop_last() =~= s.take(1));
        assert(snake_case(s.take(2)) =~= seq!['r', 'e']);
        assert(s.take(3).drop_last() =~= s.take(2));
        assert(snake_case(s.take(3)) =~= seq!['r', 'e', 'a']);
        assert(s.take(4).drop_last() =~= s.take(3));
        assert(snake_case(s.take(4)) =~= seq!['r', 'e', 'a', 'd']);
        assert(s.take(5).drop_last() =~= s.take(4));
        assert(snake_case(s.take(5)) =~= seq!['r', 'e', 'a', 'd', '_', 'o']);
        assert(s.take(6).drop_last() =~= s.take(5));
        assert(snake_case(s.take(6)) =~= seq!['r', 'e', 'a', 'd', '_', 'o', 'n']);
        assert(s.take(7).drop_last() =~= s.take(6));
        assert(snake_case(s.take(7)) =~= seq!['r', 'e', 'a', 'd', '_', 'o', 'n', 'l']);
        assert(s.take(8).drop_last() =~= s.take(7));
        assert(snake_case(s.take(8)) =~= seq!['r', 'e', 'a', 'd', '_', 'o', 'n', 'l', 'y']);
        assert(s.take(8) =~= s);
        assert("READ_ONLY"@ =~= seq!['R', 'E', 'A', 'D', '_', 'O', 'N', 'L', 'Y']);
        assert(SignerPermission::ReadOnly.name() =~= screaming_snake_case(s));
    }

    proof fn lemma_name_of_no_permission()
        ensures
            SignerPermission::NoPermission.name() == screaming_snake_case(SignerPermission::NoPermission.ident()),
    {
        reveal_strlit("None");
        reveal_strlit("NONE");
        let s = "None"@;
        assert(s =~= seq!['N', 'o', 'n', 'e']);
        assert(snake_case(s.take(0)) =~= Seq::<char>::empty());
        assert(s.take(1).drop_last() =~= s.take(0));
        assert(snake_case(s.take(1)) =~= seq!['n']);
        assert(s.take(2).drop_last() =~= s.take(1));
        assert(snake_case(s.take(2)) =~= seq!['n', 'o']);
        assert(s.take(3).drop_last() =~= s.take(2));
        assert(snake_case(s.take(3)) =~= seq!['n', 'o', 'n']);
        assert(s.take(4).drop_last() =~= s.take(3));
        assert(snake_case(s.take(4)) =~= seq!['n', 'o', 'n', 'e']);
        assert(s.take(4) =~= s);
        assert("NONE"@ =~= seq!['N', 'O', 'N', 'E']);
        assert(SignerPermission::NoPermission.name() =~= screaming_snake_case(s));
    }

    proof fn lemma_name_of_publish_cast()
        ensures
            SignerPermission::PublishCast.name() == screaming_snake_case(SignerPermission::PublishCast.ident()),
    {
        reveal_strlit("PublishCast");
        reveal_strlit("PUBLISH_CAST");
        let s = "PublishCast"@;
        assert(s =~= seq!['P', 'u', 'b', 'l', 'i', 's', 'h', 'C', 'a', 's', 't']);
        assert(snake_case(s.take(0)) =~= Seq::<char>::empty());
        assert(s.take(1).drop_last() =~= s.take(0));
        assert(snake_case(s.take(1)) =~= seq!['p']);
        assert(s.take(2).drop_last() =~= s.take(1));
        assert(snake_case(s.take(2)) =~= seq!['p', 'u']);
        assert(s.take(3).drop_last() =~= s.take(2));
        assert(snake_case(s.take(3)) =~= seq!['p', 'u', 'b']);
        assert(s.take(4).drop_last() =~= s.take(3));
        assert(snake_case(s.take(4)) =~= seq!['p', 'u', 'b', 'l']);
        assert(s.take(5).drop_last() =~= s.take(4));
        assert(snake_case(s.take(5)) =~= seq!['p', 'u', 'b', 'l', 'i']);
        assert(s.take(6).drop_last() =~= s.take(5));
        assert(snake_case(s.take(6)) =~= seq!['p', 'u', 'b', 'l', 'i', 's']);
        assert(s.take(7).drop_last() =~= s.take(6));
        assert(snake_case(s.take(7)) =~= seq!['p', 'u', 'b', 'l', 'i', 's', 'h']);
        assert(s.take(8).drop_last() =~= s.take(7));
        assert(snake_case(s.take(8)) =~= seq!['p', 'u', 'b', 'l', 'i', 's', 'h', '_', 'c']);
        assert(s.take(9).drop_last() =~= s.take(8));
        assert(snake_case(s.take(9)) =~= seq!['p', 'u', 'b', 'l', 'i', 's', 'h', '_', 'c', 'a']);
        assert(s.take(10).drop_last() =~= s.take(9));
        assert(snake_case(s.take(10)) =~= seq!['p', 'u', 'b', 'l', 'i', 's', 'h', '_', 'c', 'a', 's']);
        assert(s.take(11).drop_last() =~= s.take(10));
        assert(snake_case(s.take(11)) =~= seq!['p', 'u', 'b', 'l', 'i', 's', 'h', '_', 'c', 'a', 's', 't']);
        assert(s.take(11) =~= s);
        assert("PUBLISH_CAST"@ =~= seq!['P', 'U', 'B', 'L', 'I', 'S', 'H', '_', 'C', 'A', 'S', 'T']);
        assert(SignerPermission::PublishCast.name() =~= screaming_snake_case(s));
    }

    proof fn lemma_name_of_delete_cast()
        ensures
            SignerPermission::DeleteCast.name() == screaming_snake_case(SignerPermission::DeleteCast.ident()),
    {
        reveal_strlit("DeleteCast");
        reveal_strlit("DELETE_CAST");
        let s = "DeleteCast"@;
        assert(s =~= seq!['D', 'e', 'l', 'e', 't', 'e', 'C', 'a', 's', 't']);
        assert(snake_case(s.take(0)) =~= Seq::<char>::empty());
        assert(s.take(1).drop_last() =~= s.take(0));
        assert(snake_case(s.take(1)) =~= seq!['d']);
        assert(s.take(2).drop_last() =~= s.take(1));
        assert(snake_case(s.take(2)) =~= seq!['d', 'e']);
        assert(s.take(3).drop_last() =~= s.take(2));
        assert(snake_case(s.take(3)) =~= seq!['d', 'e', 'l']);
        assert(s.take(4).drop_last() =~= s.take(3));
        assert(snake_case(s.take(4)) =~= seq!['d', 'e', 'l', 'e']);
        assert(s.take(5).drop_last() =~= s.take(4));
        assert(snake_case(s.take(5)) =~= seq!['d', 'e', 'l', 'e', 't']);
        assert(s.take(6).drop_last() =~= s.take(5));
        assert(snake_case(s.take(6)) =~= seq!['d', 'e', 'l', 'e', 't', 'e']);
        assert(s.take(7).drop_last() =~= s.take(6));
        assert(snake_case(s.take(7)) =~= seq!['d', 'e', 'l', 'e', 't', 'e', '_', 'c']);
        assert(s.take(8).drop_last() =~= s.take(7));
        assert(snake_case(s.take(8)) =~= seq!['d', 'e', 'l', 'e', 't', 'e', '_', 'c', 'a']);
        assert(s.take(9).drop_last() =~= s.take(8));
        assert(snake_case(s.take(9)) =~= seq!['d', 'e', 'l', 'e', 't', 'e', '_', 'c', 'a', 's']);
        assert(s.take(10).drop_last() =~= s.take(9));
        assert(snake_case(s.take(10)) =~= seq!['d', 'e', 'l', 'e', 't', 'e', '_', 'c', 'a', 's', 't']);
        assert(s.take(10) =~= s);
        assert("DELETE_CAST"@ =~= seq!['D', 'E', 'L', 'E', 'T', 'E', '_', 'C', 'A', 'S', 'T']);
        assert(SignerPermission::DeleteCast.name() =~= screaming_snake_case(s));
    }

    proof fn lemma_name_of_publish_reaction()
        ensures
            SignerPermission::PublishReaction.name() == screaming_snake_case(SignerPermission::PublishReaction.ident()),
    {
        reveal_strlit("PublishReaction");
        reveal_strlit("PUBLISH_REACTION");
        let s = "PublishReaction"@;
        assert(s =~= seq!['P', 'u', 'b', 'l', 'i', 's', 'h', 'R', 'e', 'a', 'c', 't', 'i', 'o', 'n']);
        assert(snake_case(s.take(0)) =~= Seq::<char>::empty());
        assert(s.take(1).drop_last() =~= s.take(0));
        assert(snake_case(s.take(1)) =~= seq!['p']);
        assert(s.take(2).drop_last() =~= s.take(1));
        assert(snake_case(s.take(2)) =~= seq!['p', 'u']);
        assert(s.take(3).drop_last() =~= s.take(2));
        assert(snake_case(s.take(3)) =~= seq!['p', 'u', 'b']);
        assert(s.take(4).drop_last() =~= s.take(3));
        assert(snake_case(s.take(4)) =~= seq!['p', 'u', 'b', 'l']);
        assert(s.take(5).drop_last() =~= s.take(4));
        assert(snake_case(s.take(5)) =~= seq!['p', 'u', 'b', 'l', 'i']);
        assert(s.take(6).drop_last() =~= s.take(5));
        assert(snake_case(s.take(6)) =~= seq!['p', 'u', 'b', 'l', 'i', 's']);
        assert(s.take(7).drop_last() =~= s.take(6));
        assert(snake_case(s.take(7)) =~= seq!['p', 'u', 'b', 'l', 'i', 's', 'h']);
        assert(s.take(8).drop_last() =~= s.take(7));
        assert(snake_case(s.take(8)) =~= seq!['p', 'u', 'b', 'l', 'i', 's', 'h', '_', 'r']);
        assert(s.take(9).drop_last() =~= s.take(8));
        assert(snake_case(s.take(9)) =~= seq!['p', 'u', 'b', 'l', 'i', 's', 'h', '_', 'r', 'e']);
        assert(s.take(10).drop_last() =~= s.take(9));
        assert(snake_case(s.take(10)) =~= seq!['p', 'u', 'b', 'l', 'i', 's', 'h', '_', 'r', 'e', 'a']);
        assert(s.take(11).drop_last() =~= s.take(10));
        assert(snake_case(s.take(11)) =~= seq!['p', 'u', 'b', 'l', 'i', 's', 'h', '_', 'r', 'e', 'a', 'c']);
        assert(s.take(12).drop_last() =~= s.take(11));
        assert(snake_case(s.take(12)) =~= seq!['p', 'u', 'b', 'l', 'i', 's', 'h', '_', 'r', 'e', 'a', 'c', 't']);
        assert(s.take(13).drop_last() =~= s.take(12));
        assert(snake_case(s.take(13)) =~= seq!['p', 'u', 'b', 'l', 'i', 's', 'h', '_', 'r', 'e', 'a', 'c', 't', 'i']);
        assert(s.take(14).drop_last() =~= s.take(13));
        assert(snake_case(s.take(14)) =~= seq!['p', 'u', 'b', 'l', 'i', 's', 'h', '_', 'r', 'e', 'a', 'c', 't', 'i', 'o']);
        assert(s.take(15).drop_last() =~= s.take(14));
        assert(snake_case(s.take(15)) =~= seq!['p', 'u', 'b', 'l', 'i', 's', 'h', '_', 'r', 'e', 'a', 'c', 't', 'i', 'o', 'n']);
        assert(s.take(15) =~= s);
        assert("PUBLISH_REACTION"@ =~= seq!['P', 'U', 'B', 'L', 'I', 'S', 'H', '_', 'R', 'E', 'A', 'C', 'T', 'I', 'O', 'N']);
        assert(SignerPermission::PublishReaction.name() =~= screaming_snake_case(s));
    }

    proof fn lemma_name_of_delete_reaction()
        ensures
            SignerPermission::DeleteReaction.name() == screaming_snake_case(SignerPermission::DeleteReaction.ident()),
    {
        reveal_strlit("DeleteReaction");
        reveal_strlit("DELETE_REACTION");
        let s = "DeleteReaction"@;
        assert(s =~= seq!['D', 'e', 'l', 'e', 't', 'e', 'R', 'e', 'a', 'c', 't', 'i', 'o', 'n']);
        assert(snake_case(s.take(0)) =~= Seq::<char>::empty());
        assert(s.take(1).drop_last() =~= s.take(0));
        assert(snake_case(s.take(1)) =~= seq!['d']);
        assert(s.take(2).drop_last() =~= s.take(1));
        assert(snake_case(s.take(2)) =~= seq!['d', 'e']);
        assert(s.take(3).drop_last() =~= s.take(2));
        assert(snake_case(s.take(3)) =~= seq!['d', 'e', 'l']);
        assert(s.take(4).drop_last() =~= s.take(3));
        assert(snake_case(s.take(4)) =~= seq!['d', 'e', 'l', 'e']);
        assert(s.take(5).drop_last() =~= s.take(4));
        assert(snake_case(s.take(5)) =~= seq!['d', 'e', 'l', 'e', 't']);
        assert(s.take(6).drop_last() =~= s.take(5));
        assert(snake_case(s.take(6)) =~= seq!['d', 'e', 'l', 'e', 't', 'e']);
        assert(s.take(7).drop_last() =~= s.take(6));
        assert(snake_case(s.take(7)) =~= seq!['d', 'e', 'l', 'e', 't', 'e', '_', 'r']);
        assert(s.take(8).drop_last() =~= s.take(7));
        assert(snake_case(s.take(8)) =~= seq!['d', 'e', 'l', 'e', 't', 'e', '_', 'r', 'e']);
        assert(s.take(9).drop_last() =~= s.take(8));
        assert(snake_case(s.take(9)) =~= seq!['d', 'e', 'l', 'e', 't', 'e', '_', 'r', 'e', 'a']);
        assert(s.take(10).drop_last() =~= s.take(9));
        assert(snake_case(s.take(10)) =~= seq!['d', 'e', 'l', 'e', 't', 'e', '_', 'r', 'e', 'a', 'c']);
        assert(s.take(11).drop_last() =~= s.take(10));
        assert(snake_case(s.take(11)) =~= seq!['d', 'e', 'l', 'e', 't', 'e', '_', 'r', 'e', 'a', 'c', 't']);
        assert(s.take(12).drop_last() =~= s.take(11));
        assert(snake_case(s.take(12)) =~= seq!['d', 'e', 'l', 'e', 't', 'e', '_', 'r', 'e', 'a', 'c', 't', 'i']);
        assert(s.take(13).drop_last() =~= s.take(12));
        assert(snake_case(s.take(13)) =~= seq!['d', 'e', 'l', 'e', 't', 'e', '_', 'r', 'e', 'a', 'c', 't', 'i', 'o']);
        assert(s.take(14).drop_last() =~= s.take(13));
        assert(snake_case(s.take(14)) =~= seq!['d', 'e', 'l', 'e', 't', 'e', '_', 'r', 'e', 'a', 'c', 't', 'i', 'o', 'n']);
        assert(s.take(14) =~= s);
        assert("DELETE_REACTION"@ =~= seq!['D', 'E', 'L', 'E', 'T', 'E', '_', 'R', 'E', 'A', 'C', 'T', 'I', 'O', 'N']);
        assert(SignerPermission::DeleteReaction.name() =~= screaming_snake_case(s));
    }

    proof fn lemma_name_of_update_profile()
        ensures
            SignerPermission::UpdateProfile.name() == screaming_snake_case(SignerPermission::UpdateProfile.ident()),
    {
        reveal_strlit("UpdateProfile");
        reveal_strlit("UPDATE_PROFILE");
        let s = "UpdateProfile"@;
        assert(s =~= seq!['U', 'p', 'd', 'a', 't', 'e', 'P', 'r', 'o', 'f', 'i', 'l', 'e']);
        assert(snake_case(s.take(0)) =~= Seq::<char>::empty());
        assert(s.take(1).drop_last() =~= s.take(0));
        assert(snake_case(s.take(1)) =~= seq!['u']);
        assert(s.take(2).drop_last() =~= s.take(1));
        assert(snake_case(s.take(2)) =~= seq!['u', 'p']);
        assert(s.take(3).drop_last() =~= s.take(2));
        assert(snake_case(s.take(3)) =~= seq!['u', 'p', 'd']);
        assert(s.take(4).drop_last() =~= s.take(3));
        assert(snake_case(s.take(4)) =~= seq!['u', 'p', 'd', 'a']);
        assert(s.take(5).drop_last() =~= s.take(4));
        assert(snake_case(s.take(5)) =~= seq!['u', 'p', 'd', 'a', 't']);
        assert(s.take(6).drop_last() =~= s.take(5));
        assert(snake_case(s.take(6)) =~= seq!['u', 'p', 'd', 'a', 't', 'e']);
        assert(s.take(7).drop_last() =~= s.take(6));
        assert(snake_case(s.take(7)) =~= seq!['u', 'p', 'd', 'a', 't', 'e', '_', 'p']);
        assert(s.take(8).drop_last() =~= s.take(7));
        assert(snake_case(s.take(8)) =~= seq!['u', 'p', 'd', 'a', 't', 'e', '_', 'p', 'r']);
        assert(s.take(9).drop_last() =~= s.take(8));
        assert(snake_case(s.take(9)) =~= seq!['u', 'p', 'd', 'a', 't', 'e', '_', 'p', 'r', 'o']);
        assert(s.take(10).drop_last() =~= s.take(9));
        assert(snake_case(s.take(10)) =~= seq!['u', 'p', 'd', 'a', 't', 'e', '_', 'p', 'r', 'o', 'f']);
        assert(s.take(11).drop_last() =~= s.take(10));
        assert(snake_case(s.take(11)) =~= seq!['u', 'p', 'd', 'a', 't', 'e', '_', 'p', 'r', 'o', 'f', 'i']);
        assert(s.take(12).drop_last() =~= s.take(11));
        assert(snake_case(s.take(12)) =~= seq!['u', 'p', 'd', 'a', 't', 'e', '_', 'p', 'r', 'o', 'f', 'i', 'l']);
        assert(s.take(13).drop_last() =~= s.take(12));
        assert(snake_case(s.take(13)) =~= seq!['u', 'p', 'd', 'a', 't', 'e', '_', 'p', 'r', 'o', 'f', 'i', 'l', 'e']);
        assert(s.take(13) =~= s);
        assert("UPDATE_PROFILE"@ =~= seq!['U', 'P', 'D', 'A', 'T', 'E', '_', 'P', 'R', 'O', 'F', 'I', 'L', 'E']);
        assert(SignerPermission::UpdateProfile.name() =~= screaming_snake_case(s));
    }

    proof fn lemma_name_of_follow_user()
        ensures
            SignerPermission::FollowUser.name() == screaming_snake_case(SignerPermission::FollowUser.ident()),
    {
        reveal_strlit("FollowUser");
        reveal_strlit("FOLLOW_USER");
        let s = "FollowUser"@;
        assert(s =~= seq!['F', 'o', 'l', 'l', 'o', 'w', 'U', 's', 'e', 'r']);
        assert(snake_case(s.take(0)) =~= Seq::<char>::empty());
        assert(s.take(1).drop_last() =~= s.take(0));
        assert(snake_case(s.take(1)) =~= seq!['f']);
        assert(s.take(2).drop_last() =~= s.take(1));
        assert(snake_case(s.take(2)) =~= seq!['f', 'o']);
        assert(s.take(3).drop_last() =~= s.take(2));
        assert(snake_case(s.take(3)) =~= seq!['f', 'o', 'l']);
        assert(s.take(4).drop_last() =~= s.take(3));
        assert(snake_case(s.take(4)) =~= seq!['f', 'o', 'l', 'l']);
        assert(s.take(5).drop_last() =~= s.take(4));
        assert(snake_case(s.take(5)) =~= seq!['f', 'o', 'l', 'l', 'o']);
        assert(s.take(6).drop_last() =~= s.take(5));
        assert(snake_case(s.take(6)) =~= seq!['f', 'o', 'l', 'l', 'o', 'w']);
        assert(s.take(7).drop_last() =~= s.take(6));
        assert(snake_case(s.take(7)) =~= seq!['f', 'o', 'l', 'l', 'o', 'w', '_', 'u']);
        assert(s.take(8).drop_last() =~= s.take(7));
        assert(snake_case(s.take(8)) =~= seq!['f', 'o', 'l', 'l', 'o', 'w', '_', 'u', 's']);
        assert(s.take(9).drop_last() =~= s.take(8));
        assert(snake_case(s.take(9)) =~= seq!['f', 'o', 'l', 'l', 'o', 'w', '_', 'u', 's', 'e']);
        assert(s.take(10).drop_last() =~= s.take(9));
        assert(snake_case(s.take(10)) =~= seq!['f', 'o', 'l', 'l', 'o', 'w', '_', 'u', 's', 'e', 'r']);
        assert(s.take(10) =~= s);
        assert("FOLLOW_USER"@ =~= seq!['F', 'O', 'L', 'L', 'O', 'W', '_', 'U', 'S', 'E', 'R']);
        assert(SignerPermission::FollowUser.name() =~= screaming_snake_case(s));
    }

    proof fn lemma_name_of_unfollow_user()
        ensures
            SignerPermission::UnfollowUser.name() == screaming_snake_case(SignerPermission::UnfollowUser.ident()),
    {
        reveal_strlit("UnfollowUser");
        reveal_strlit("UNFOLLOW_USER");
        let s = "UnfollowUser"@;
        assert(s =~= seq!['U', 'n', 'f', 'o', 'l', 'l', 'o', 'w', 'U', 's', 'e', 'r']);
        assert(snake_case(s.take(0)) =~= Seq::<char>::empty());
        assert(s.take(1).drop_last() =~= s.take(0));
        assert(snake_case(s.take(1)) =~= seq!['u']);
        assert(s.take(2).drop_last() =~= s.take(1));
        assert(snake_case(s.take(2)) =~= seq!['u', 'n']);
        assert(s.take(3).drop_last() =~= s.take(2));
        assert(snake_case(s.take(3)) =~= seq!['u', 'n', 'f']);
        assert(s.take(4).drop_last() =~= s.take(3));
        assert(snake_case(s.take(4)) =~= seq!['u', 'n', 'f', 'o']);
        assert(s.take(5).drop_last() =~= s.take(4));
        assert(snake_case(s.take(5)) =~= seq!['u', 'n', 'f', 'o', 'l']);
        assert(s.take(6).drop_last() =~= s.take(5));
        assert(snake_case(s.take(6)) =~= seq!['u', 'n', 'f', 'o', 'l', 'l']);
        assert(s.take(7).drop_last() =~= s.take(6));
        assert(snake_case(s.take(7)) =~= seq!['u', 'n', 'f', 'o', 'l', 'l', 'o']);
        assert(s.take(8).drop_last() =~= s.take(7));
        assert(snake_case(s.take(8)) =~= seq!['u', 'n', 'f', 'o', 'l', 'l', 'o', 'w']);
        assert(s.take(9).drop_last() =~= s.take(8));
        assert(snake_case(s.take(9)) =~= seq!['u', 'n', 'f', 'o', 'l', 'l', 'o', 'w', '_', 'u']);
        assert(s.take(10).drop_last() =~= s.take(9));
        assert(snake_case(s.take(10)) =~= seq!['u', 'n', 'f', 'o', 'l', 'l', 'o', 'w', '_', 'u', 's']);
        assert(s.take(11).drop_last() =~= s.take(10));
        assert(snake_case(s.take(11)) =~= seq!['u', 'n', 'f', 'o', 'l', 'l', 'o', 'w', '_', 'u', 's', 'e']);
        assert(s.take(12).drop_last() =~= s.take(11));
        assert(snake_case(s.take(12)) =~= seq!['u', 'n', 'f', 'o', 'l', 'l', 'o', 'w', '_', 'u', 's', 'e', 'r']);
        assert(s.take(12) =~= s);
        assert("UNFOLLOW_USER"@ =~= seq!['U', 'N', 'F', 'O', 'L', 'L', 'O', 'W', '_', 'U', 'S', 'E', 'R']);
        assert(SignerPermission::UnfollowUser.name() =~= screaming_snake_case(s));
    }

    proof fn lemma_name_of_follow_channel()
        ensures
            SignerPermission::FollowChannel.name() == screaming_snake_case(SignerPermission::FollowChannel.ident()),
    {
        reveal_strlit("FollowChannel");
        reveal_strlit("FOLLOW_CHANNEL");
        let s = "FollowChannel"@;
        assert(s =~= seq!['F', 'o', 'l', 'l', 'o', 'w', 'C', 'h', 'a', 'n', 'n', 'e', 'l']);
        assert(snake_case(s.take(0)) =~= Seq::<char>::empty());
        assert(s.take(1).drop_last() =~= s.take(0));
        assert(snake_case(s.take(1)) =~= seq!['f']);
        assert(s.take(2).drop_last() =~= s.take(1));
        assert(snake_case(s.take(2)) =~= seq!['f', 'o']);
        assert(s.take(3).drop_last() =~= s.take(2));
        assert(snake_case(s.take(3)) =~= seq!['f', 'o', 'l']);
        assert(s.take(4).drop_last() =~= s.take(3));
        assert(snake_case(s.take(4)) =~= seq!['f', 'o', 'l', 'l']);
        assert(s.take(5).drop_last() =~= s.take(4));
        assert(snake_case(s.take(5)) =~= seq!['f', 'o', 'l', 'l', 'o']);
        assert(s.take(6).drop_last() =~= s.take(5));
        assert(snake_case(s.take(6)) =~= seq!['f', 'o', 'l', 'l', 'o', 'w']);
        assert(s.take(7).drop_last() =~= s.take(6));
        assert(snake_case(s.take(7)) =~= seq!['f', 'o', 'l', 'l', 'o', 'w', '_', 'c']);
        assert(s.take(8).drop_last() =~= s.take(7));
        assert(snake_case(s.take(8)) =~= seq!['f', 'o', 'l', 'l', 'o', 'w', '_', 'c', 'h']);
        assert(s.take(9).drop_last() =~= s.take(8));
        assert(snake_case(s.take(9)) =~= seq!['f', 'o', 'l', 'l', 'o', 'w', '_', 'c', 'h', 'a']);
        assert(s.take(10).drop_last() =~= s.take(9));
        assert(snake_case(s.take(10)) =~= seq!['f', 'o', 'l', 'l', 'o', 'w', '_', 'c', 'h', 'a', 'n']);
        assert(s.take(11).drop_last() =~= s.take(10));
        assert(snake_case(s.take(11)) =~= seq!['f', 'o', 'l', 'l', 'o', 'w', '_', 'c', 'h', 'a', 'n', 'n']);
        assert(s.take(12).drop_last() =~= s.take(11));
        assert(snake_case(s.take(12)) =~= seq!['f', 'o', 'l', 'l', 'o', 'w', '_', 'c', 'h', 'a', 'n', 'n', 'e']);
        assert(s.take(13).drop_last() =~= s.take(12));
        assert(snake_case(s.take(13)) =~= seq!['f', 'o', 'l', 'l', 'o', 'w', '_', 'c', 'h', 'a', 'n', 'n', 'e', 'l']);
        assert(s.take(13) =~= s);
        assert("FOLLOW_CHANNEL"@ =~= seq!['F', 'O', 'L', 'L', 'O', 'W', '_', 'C', 'H', 'A', 'N', 'N', 'E', 'L']);
        assert(SignerPermission::FollowChannel.name() =~= screaming_snake_case(s));
    }

    proof fn lemma_name_of_unfollow_channel()
        ensures
            SignerPermission::UnfollowChannel.name() == screaming_snake_case(SignerPermission::UnfollowChannel.ident()),
    {
        reveal_strlit("UnfollowChannel");
        reveal_strlit("UNFOLLOW_CHANNEL");
        let s = "UnfollowChannel"@;
        assert(s =~= seq!['U', 'n', 'f', 'o', 'l', 'l', 'o', 'w', 'C', 'h', 'a', 'n', 'n', 'e', 'l']);
        assert(snake_case(s.take(0)) =~= Seq::<char>::empty());
        assert(s.take(1).drop_last() =~= s.take(0));
        assert(snake_case(s.take(1)) =~= seq!['u']);
        assert(s.take(2).drop_last() =~= s.take(1));
        assert(snake_case(s.take(2)) =~= seq!['u', 'n']);
        assert(s.take(3).drop_last() =~= s.take(2));
        assert(snake_case(s.take(3)) =~= seq!['u', 'n', 'f']);
        assert(s.take(4).drop_last() =~= s.take(3));
        assert(snake_case(s.take(4)) =~= seq!['u', 'n', 'f', 'o']);
        assert(s.take(5).drop_last() =~= s.take(4));
        assert(snake_case(s.take(5)) =~= seq!['u', 'n', 'f', 'o', 'l']);
        assert(s.take(6).drop_last() =~= s.take(5));
        assert(snake_case(s.take(6)) =~= seq!['u', 'n', 'f', 'o', 'l', 'l']);
        assert(s.take(7).drop_last() =~= s.take(6));
        assert(snake_case(s.take(7)) =~= seq!['u', 'n', 'f', 'o', 'l', 'l', 'o']);
        assert(s.take(8).drop_last() =~= s.take(7));
        assert(snake_case(s.take(8)) =~= seq!['u', 'n', 'f', 'o', 'l', 'l', 'o', 'w']);
        assert(s.take(9).drop_last() =~= s.take(8));
        assert(snake_case(s.take(9)) =~= seq!['u', 'n', 'f', 'o', 'l', 'l', 'o', 'w', '_', 'c']);
        assert(s.take(10).drop_last() =~= s.take(9));
        assert(snake_case(s.take(10)) =~= seq!['u', 'n', 'f', 'o', 'l', 'l', 'o', 'w', '_', 'c', 'h']);
        assert(s.take(11).drop_last() =~= s.take(10));
        assert(snake_case(s.take(11)) =~= seq!['u', 'n', 'f', 'o', 'l', 'l', 'o', 'w', '_', 'c', 'h', 'a']);
        assert(s.take(12).drop_last() =~= s.take(11));
        assert(snake_case(s.take(12)) =~= seq!['u', 'n', 'f', 'o', 'l', 'l', 'o', 'w', '_', 'c', 'h', 'a', 'n']);
        assert(s.take(13).drop_last() =~= s.take(12));
        assert(snake_case(s.take(13)) =~= seq!['u', 'n', 'f', 'o', 'l', 'l', 'o', 'w', '_', 'c', 'h', 'a', 'n', 'n']);
        assert(s.take(14).drop_last() =~= s.take(13));
        assert(snake_case(s.take(14)) =~= seq!['u', 'n', 'f', 'o', 'l', 'l', 'o', 'w', '_', 'c', 'h', 'a', 'n', 'n', 'e']);
        assert(s.take(15).drop_last() =~= s.take(14));
        assert(snake_case(s.take(15)) =~= seq!['u', 'n', 'f', 'o', 'l', 'l', 'o', 'w', '_', 'c', 'h', 'a', 'n', 'n', 'e', 'l']);
        assert(s.take(15) =~= s);
        assert("UNFOLLOW_CHANNEL"@ =~= seq!['U', 'N', 'F', 'O', 'L', 'L', 'O', 'W', '_', 'C', 'H', 'A', 'N', 'N', 'E', 'L']);
        assert(SignerPermission::UnfollowChannel.name() =~= screaming_snake_case(s));
    }

    proof fn lemma_name_of_add_verification()
        ensures
            SignerPermission::AddVerification.name() == screaming_snake_case(SignerPermission::AddVerification.ident()),
    {
        reveal_strlit("AddVerification");
        reveal_strlit("ADD_VERIFICATION");
        let s = "AddVerification"@;
        assert(s =~= seq!['A', 'd', 'd', 'V', 'e', 'r', 'i', 'f', 'i', 'c', 'a', 't', 'i', 'o', 'n']);
        assert(snake_case(s.take(0)) =~= Seq::<char>::empty());
        assert(s.take(1).drop_last() =~= s.take(0));
        assert(snake_case(s.take(1)) =~= seq!['a']);
        assert(s.take(2).drop_last() =~= s.take(1));
        assert(snake_case(s.take(2)) =~= seq!['a', 'd']);
        assert(s.take(3).drop_last() =~= s.take(2));
        assert(snake_case(s.take(3)) =~= seq!['a', 'd', 'd']);
        assert(s.take(4).drop_last() =~= s.take(3));
        assert(snake_case(s.take(4)) =~= seq!['a', 'd', 'd', '_', 'v']);
        assert(s.take(5).drop_last() =~= s.take(4));
        assert(snake_case(s.take(5)) =~= seq!['a', 'd', 'd', '_', 'v', 'e']);
        assert(s.take(6).drop_last() =~= s.take(5));
        assert(snake_case(s.take(6)) =~= seq!['a', 'd', 'd', '_', 'v', 'e', 'r']);
        assert(s.take(7).drop_last() =~= s.take(6));
        assert(snake_case(s.take(7)) =~= seq!['a', 'd', 'd', '_', 'v', 'e', 'r', 'i']);
        assert(s.take(8).drop_last() =~= s.take(7));
        assert(snake_case(s.take(8)) =~= seq!['a', 'd', 'd', '_', 'v', 'e', 'r', 'i', 'f']);
        assert(s.take(9).drop_last() =~= s.take(8));
        assert(snake_case(s.take(9)) =~= seq!['a', 'd', 'd', '_', 'v', 'e', 'r', 'i', 'f', 'i']);
        assert(s.take(10).drop_last() =~= s.take(9));
        assert(snake_case(s.take(10)) =~= seq!['a', 'd', 'd', '_', 'v', 'e', 'r', 'i', 'f', 'i', 'c']);
        assert(s.take(11).drop_last() =~= s.take(10));
        assert(snake_case(s.take(11)) =~= seq!['a', 'd', 'd', '_', 'v', 'e', 'r', 'i', 'f', 'i', 'c', 'a']);
        assert(s.take(12).drop_last() =~= s.take(11));
        assert(snake_case(s.take(12)) =~= seq!['a', 'd', 'd', '_', 'v', 'e', 'r', 'i', 'f', 'i', 'c', 'a', 't']);
        assert(s.take(13).drop_last() =~= s.take(12));
        assert(snake_case(s.take(13)) =~= seq!['a', 'd', 'd', '_', 'v', 'e', 'r', 'i', 'f', 'i', 'c', 'a', 't', 'i']);
        assert(s.take(14).drop_last() =~= s.take(13));
        assert(snake_case(s.take(14)) =~= seq!['a', 'd', 'd', '_', 'v', 'e', 'r', 'i', 'f', 'i', 'c', 'a', 't', 'i', 'o']);
        assert(s.take(15).drop_last() =~= s.take(14));
        assert(snake_case(s.take(15)) =~= seq!['a', 'd', 'd', '_', 'v', 'e', 'r', 'i', 'f', 'i', 'c', 'a', 't', 'i', 'o', 'n']);
        assert(s.take(15) =~= s);
        assert("ADD_VERIFICATION"@ =~= seq!['A', 'D', 'D', '_', 'V', 'E', 'R', 'I', 'F', 'I', 'C', 'A', 'T', 'I', 'O', 'N']);
        assert(SignerPermission::AddVerification.name() =~= screaming_snake_case(s));
    }

    proof fn lemma_name_of_remove_verification()
        ensures
            SignerPermission::RemoveVerification.name() == screaming_snake_case(SignerPermission::RemoveVerification.ident()),
    {
        reveal_strlit("RemoveVerification");
        reveal_strlit("REMOVE_VERIFICATION");
        let s = "RemoveVerification"@;
        assert(s =~= seq!['R', 'e', 'm', 'o', 'v', 'e', 'V', 'e', 'r', 'i', 'f', 'i', 'c', 'a', 't', 'i', 'o', 'n']);
        assert(snake_case(s.take(0)) =~= Seq::<char>::empty());
        assert(s.take(1).drop_last() =~= s.take(0));
        assert(snake_case(s.take(1)) =~= seq!['r']);
        assert(s.take(2).drop_last() =~= s.take(1));
        assert(snake_case(s.take(2)) =~= seq!['r', 'e']);
        assert(s.take(3).drop_last() =~= s.take(2));
        assert(snake_case(s.take(3)) =~= seq!['r', 'e', 'm']);
        assert(s.take(4).drop_last() =~= s.take(3));
        assert(snake_case(s.take(4)) =~= seq!['r', 'e', 'm', 'o']);
        assert(s.take(5).drop_last() =~= s.take(4));
        assert(snake_case(s.take(5)) =~= seq!['r', 'e', 'm', 'o', 'v']);
        assert(s.take(6).drop_last() =~= s.take(5));
        assert(snake_case(s.take(6)) =~= seq!['r', 'e', 'm', 'o', 'v', 'e']);
        assert(s.take(7).drop_last() =~= s.take(6));
        assert(snake_case(s.take(7)) =~= seq!['r', 'e', 'm', 'o', 'v', 'e', '_', 'v']);
        assert(s.take(8).drop_last() =~= s.take(7));
        assert(snake_case(s.take(8)) =~= seq!['r', 'e', 'm', 'o', 'v', 'e', '_', 'v', 'e']);
        assert(s.take(9).drop_last() =~= s.take(8));
        assert(snake_case(s.take(9)) =~= seq!['r', 'e', 'm', 'o', 'v', 'e', '_', 'v', 'e', 'r']);
        assert(s.take(10).drop_last() =~= s.take(9));
        assert(snake_case(s.take(10)) =~= seq!['r', 'e', 'm', 'o', 'v', 'e', '_', 'v', 'e', 'r', 'i']);
        assert(s.take(11).drop_last() =~= s.take(10));
        assert(snake_case(s.take(11)) =~= seq!['r', 'e', 'm', 'o', 'v', 'e', '_', 'v', 'e', 'r', 'i', 'f']);
        assert(s.take(12).drop_last() =~= s.take(11));
        assert(snake_case(s.take(12)) =~= seq!['r', 'e', 'm', 'o', 'v', 'e', '_', 'v', 'e', 'r', 'i', 'f', 'i']);
        assert(s.take(13).drop_last() =~= s.take(12));
        assert(snake_case(s.take(13)) =~= seq!['r', 'e', 'm', 'o', 'v', 'e', '_', 'v', 'e', 'r', 'i', 'f', 'i', 'c']);
        assert(s.take(14).drop_last() =~= s.take(13));
        assert(snake_case(s.take(14)) =~= seq!['r', 'e', 'm', 'o', 'v', 'e', '_', 'v', 'e', 'r', 'i', 'f', 'i', 'c', 'a']);
        assert(s.take(15).drop_last() =~= s.take(14));
        assert(snake_case(s.take(15)) =~= seq!['r', 'e', 'm', 'o', 'v', 'e', '_', 'v', 'e', 'r', 'i', 'f', 'i', 'c', 'a', 't']);
        assert(s.take(16).drop_last() =~= s.take(15));
        assert(snake_case(s.take(16)) =~= seq!['r', 'e', 'm', 'o', 'v', 'e', '_', 'v', 'e', 'r', 'i', 'f', 'i', 'c', 'a', 't', 'i']);
        assert(s.take(17).drop_last() =~= s.take(16));
        assert(snake_case(s.take(17)) =~= seq!['r', 'e', 'm', 'o', 'v', 'e', '_', 'v', 'e', 'r', 'i', 'f', 'i', 'c', 'a', 't', 'i', 'o']);
        assert(s.take(18).drop_last() =~= s.take(17));
        assert(snake_case(s.take(18)) =~= seq!['r', 'e', 'm', 'o', 'v', 'e', '_', 'v', 'e', 'r', 'i', 'f', 'i', 'c', 'a', 't', 'i', 'o', 'n']);
        assert(s.take(18) =~= s);
        assert("REMOVE_VERIFICATION"@ =~= seq!['R', 'E', 'M', 'O', 'V', 'E', '_', 'V', 'E', 'R', 'I', 'F', 'I', 'C', 'A', 'T', 'I', 'O', 'N']);
        assert(SignerPermission::RemoveVerification.name() =~= screaming_snake_case(s));
    }

    proof fn lemma_name_of_write_frame_action()
        ensures
            SignerPermission::WriteFrameAction.name() == screaming_snake_case(SignerPermission::WriteFrameAction.ident()),
    {
        reveal_strlit("WriteFrameAction");
        reveal_strlit("WRITE_FRAME_ACTION");
        let s = "WriteFrameAction"@;
        assert(s =~= seq!['W', 'r', 'i', 't', 'e', 'F', 'r', 'a', 'm', 'e', 'A', 'c', 't', 'i', 'o', 'n']);
        assert(snake_case(s.take(0)) =~= Seq::<char>::empty());
        assert(s.take(1).drop_last() =~= s.take(0));
        assert(snake_case(s.take(1)) =~= seq!['w']);
        assert(s.take(2).drop_last() =~= s.take(1));
        assert(snake_case(s.take(2)) =~= seq!['w', 'r']);
        assert(s.take(3).drop_last() =~= s.take(2));
        assert(snake_case(s.take(3)) =~= seq!['w', 'r', 'i']);
        assert(s.take(4).drop_last() =~= s.take(3));
        assert(snake_case(s.take(4)) =~= seq!['w', 'r', 'i', 't']);
        assert(s.take(5).drop_last() =~= s.take(4));
        assert(snake_case(s.take(5)) =~= seq!['w', 'r', 'i', 't', 'e']);
        assert(s.take(6).drop_last() =~= s.take(5));
        assert(snake_case(s.take(6)) =~= seq!['w', 'r', 'i', 't', 'e', '_', 'f']);
        assert(s.take(7).drop_last() =~= s.take(6));
        assert(snake_case(s.take(7)) =~= seq!['w', 'r', 'i', 't', 'e', '_', 'f', 'r']);
        assert(s.take(8).drop_last() =~= s.take(7));
        assert(snake_case(s.take(8)) =~= seq!['w', 'r', 'i', 't', 'e', '_', 'f', 'r', 'a']);
        assert(s.take(9).drop_last() =~= s.take(8));
        assert(snake_case(s.take(9)) =~= seq!['w', 'r', 'i', 't', 'e', '_', 'f', 'r', 'a', 'm']);
        assert(s.take(10).drop_last() =~= s.take(9));
        assert(snake_case(s.take(10)) =~= seq!['w', 'r', 'i', 't', 'e', '_', 'f', 'r', 'a', 'm', 'e']);
        assert(s.take(11).drop_last() =~= s.take(10));
        assert(snake_case(s.take(11)) =~= seq!['w', 'r', 'i', 't', 'e', '_', 'f', 'r', 'a', 'm', 'e', '_', 'a']);
        assert(s.take(12).drop_last() =~= s.take(11));
        assert(snake_case(s.take(12)) =~= seq!['w', 'r', 'i', 't', 'e', '_', 'f', 'r', 'a', 'm', 'e', '_', 'a', 'c']);
        assert(s.take(13).drop_last() =~= s.take(12));
        assert(snake_case(s.take(13)) =~= seq!['w', 'r', 'i', 't', 'e', '_', 'f', 'r', 'a', 'm', 'e', '_', 'a', 'c', 't']);
        assert(s.take(14).drop_last() =~= s.take(13));
        assert(snake_case(s.take(14)) =~= seq!['w', 'r', 'i', 't', 'e', '_', 'f', 'r', 'a', 'm', 'e', '_', 'a', 'c', 't', 'i']);
        assert(s.take(15).drop_last() =~= s.take(14));
        assert(snake_case(s.take(15)) =~= seq!['w', 'r', 'i', 't', 'e', '_', 'f', 'r', 'a', 'm', 'e', '_', 'a', 'c', 't', 'i', 'o']);
        assert(s.take(16).drop_last() =~= s.take(15));
        assert(snake_case(s.take(16)) =~= seq!['w', 'r', 'i', 't', 'e', '_', 'f', 'r', 'a', 'm', 'e', '_', 'a', 'c', 't', 'i', 'o', 'n']);
        assert(s.take(16) =~= s);
        assert("WRITE_FRAME_ACTION"@ =~= seq!['W', 'R', 'I', 'T', 'E', '_', 'F', 'R', 'A', 'M', 'E', '_', 'A', 'C', 'T', 'I', 'O', 'N']);
        assert(SignerPermission::WriteFrameAction.name() =~= screaming_snake_case(s));
    }

    /// Each kind is named by its identifier in capital snake case.
    pub proof fn lemma_names_follow_idents()
        ensures
            forall|k: SignerPermission| #[trigger] k.name() == screaming_snake_case(k.ident()),
    {
        assert forall|k: SignerPermission| #[trigger] k.name() == screaming_snake_case(k.ident()) by {
            match k {
                SignerPermission::WriteAll => {
                    SignerPermission::lemma_name_of_write_all();
                },
                SignerPermission::ReadOnly => {
                    SignerPermission::lemma_name_of_read_only();
                },
                SignerPermission::NoPermission => {
                    SignerPermission::lemma_name_of_no_permission();
                },
                SignerPermission::PublishCast => {
                    SignerPermission::lemma_name_of_publish_cast();
                },
                SignerPermission::DeleteCast => {
                    SignerPermission::lemma_name_of_delete_cast();
                },
                SignerPermission::PublishReaction => {
                    SignerPermission::lemma_name_of_publish_reaction();
                },
                SignerPermission::DeleteReaction => {
                    SignerPermission::lemma_name_of_delete_reaction();
                },
                SignerPermission::UpdateProfile => {
                    SignerPermission::lemma_name_of_update_profile();
                },
                SignerPermission::FollowUser => {
                    SignerPermission::lemma_name_of_follow_user();
                },
                SignerPermission::UnfollowUser => {
                    SignerPermission::lemma_name_of_unfollow_user();
                },
                SignerPermission::FollowChannel => {
                    SignerPermission::lemma_name_of_follow_channel();
                },
                SignerPermission::UnfollowChannel => {
                    SignerPermission::lemma_name_of_unfollow_channel();
                },
                SignerPermission::AddVerification => {
                    SignerPermission::lemma_name_of_add_verification();
                },
                SignerPermission::RemoveVerification => {
                    SignerPermission::lemma_name_of_remove_verification();
                },
                SignerPermission::WriteFrameAction => {
                    SignerPermission::lemma_name_of_write_frame_action();
                },
            }
        }
    }

    /// The name of the kind, as a text.
    pub fn as_str(&self) -> (text: &'static str)
        ensures
            text@ == self.name(),
            text@ == screaming_snake_case(self.ident()),
    {
        proof {
            SignerPermission::lemma_names_follow_idents();
            assert(self.name() == screaming_snake_case(self.ident()));
        }
        match self {
            SignerPermission::WriteAll => "WRITE_ALL",
            SignerPermission::ReadOnly => "READ_ONLY",
            SignerPermission::NoPermission => "NONE",
            SignerPermission::PublishCast => "PUBLISH_CAST",
            SignerPermission::DeleteCast => "DELETE_CAST",
            SignerPermission::PublishReaction => "PUBLISH_REACTION",
            SignerPermission::DeleteReaction => "DELETE_REACTION",
            SignerPermission::UpdateProfile => "UPDATE_PROFILE",
            SignerPermission::FollowUser => "FOLLOW_USER",
            SignerPermission::UnfollowUser => "UNFOLLOW_USER",
            SignerPermission::FollowChannel => "FOLLOW_CHANNEL",
            SignerPermission::UnfollowChannel => "UNFOLLOW_CHANNEL",
            SignerPermission::AddVerification => "ADD_VERIFICATION",
            SignerPermission::RemoveVerification => "REMOVE_VERIFICATION",
            SignerPermission::WriteFrameAction => "WRITE_FRAME_ACTION",
        }
    }

    /// Distinct kinds have distinct names.
    pub proof fn lemma_name_injective(a: SignerPermission, b: SignerPermission)
        requires
            a.name() == b.name(),
        ensures
            a == b,
    {
        reveal_strlit("WRITE_ALL");
        reveal_strlit("READ_ONLY");
        reveal_strlit("NONE");
        reveal_strlit("PUBLISH_CAST");
        reveal_strlit("DELETE_CAST");
        reveal_strlit("PUBLISH_REACTION");
        reveal_strlit("DELETE_REACTION");
        reveal_strlit("UPDATE_PROFILE");
        reveal_strlit("FOLLOW_USER");
        reveal_strlit("UNFOLLOW_USER");
        reveal_strlit("FOLLOW_CHANNEL");
        reveal_strlit("UNFOLLOW_CHANNEL");
        reveal_strlit("ADD_VERIFICATION");
        reveal_strlit("REMOVE_VERIFICATION");
        reveal_strlit("WRITE_FRAME_ACTION");
        assert("WRITE_ALL"@.len() == 9);
        assert("READ_ONLY"@.len() == 9);
        assert("NONE"@.len() == 4);
        assert("PUBLISH_CAST"@.len() == 12);
        assert("DELETE_CAST"@.len() == 11);
        assert("PUBLISH_REACTION"@.len() == 16);
        assert("DELETE_REACTION"@.len() == 15);
        assert("UPDATE_PROFILE"@.len() == 14);
        assert("FOLLOW_USER"@.len() == 11);
        assert("UNFOLLOW_USER"@.len() == 13);
        assert("FOLLOW_CHANNEL"@.len() == 14);
        assert("UNFOLLOW_CHANNEL"@.len() == 16);
        assert("ADD_VERIFICATION"@.len() == 16);
        assert("REMOVE_VERIFICATION"@.len() == 19);
        assert("WRITE_FRAME_ACTION"@.len() == 18);
        assert("WRITE_ALL"@[0] != "READ_ONLY"@[0]);
        assert("DELETE_CAST"@[0] != "FOLLOW_USER"@[0]);
        assert("PUBLISH_REACTION"@[0] != "UNFOLLOW_CHANNEL"@[0]);
        assert("PUBLISH_REACTION"@[0] != "ADD_VERIFICATION"@[0]);
        assert("UPDATE_PROFILE"@[0] != "FOLLOW_CHANNEL"@[0]);
        assert("UNFOLLOW_CHANNEL"@[0] != "ADD_VERIFICATION"@[0]);
    }

    /// The kind whose name is `text`, where there is one.
    #[verifier::rlimit(40)]
    pub fn from_name(text: &str) -> (r: Option<SignerPermission>)
        ensures
            r matches Some(k) ==> k.name() == text@,
            r is None ==> forall|k: SignerPermission| k.name() != text@,
            forall|k: SignerPermission| (r == Some(k)) <==> k.name() == text@,
    {
        let r = if text_eq(text, "WRITE_ALL") {
            Some(SignerPermission::WriteAll)
        } else if text_eq(text, "READ_ONLY") {
            Some(SignerPermission::ReadOnly)
        } else if text_eq(text, "NONE") {
            Some(SignerPermission::NoPermission)
        } else if text_eq(text, "PUBLISH_CAST") {
            Some(SignerPermission::PublishCast)
        } else if text_eq(text, "DELETE_CAST") {
            Some(SignerPermission::DeleteCast)
        } else if text_eq(text, "PUBLISH_REACTION") {
            Some(SignerPermission::PublishReaction)
        } else if text_eq(text, "DELETE_REACTION") {
            Some(SignerPermission::DeleteReaction)
        } else if text_eq(text, "UPDATE_PROFILE") {
            Some(SignerPermission::UpdateProfile)
        } else if text_eq(text, "FOLLOW_USER") {
            Some(SignerPermission::FollowUser)
        } else if text_eq(text, "UNFOLLOW_USER") {
            Some(SignerPermission::UnfollowUser)
        } else if text_eq(text, "FOLLOW_CHANNEL") {
            Some(SignerPermission::FollowChannel)
        } else if text_eq(text, "UNFOLLOW_CHANNEL") {
            Some(SignerPermission::UnfollowChannel)
        } else if text_eq(text, "ADD_VERIFICATION") {
            Some(SignerPermission::AddVerification)
        } else if text_eq(text, "REMOVE_VERIFICATION") {
            Some(SignerPermission::RemoveVerification)
        } else if text_eq(text, "WRITE_FRAME_ACTION") {
            Some(SignerPermission::WriteFrameAction)
        } else {
            None
        };
        proof {
            if let Some(j) = r {
                assert forall|k: SignerPermission| k.name() == text@ implies k == j by {
                    SignerPermission::lemma_name_injective(k, j);
                }
            }
        }
        r
    }
}

/// Kind of notification a request asks for.
#[derive(Debug, Clone, Copy, PartialEq, Eq, Hash, Structural)]
pub enum NotificationFilterKind {
    Follows,
    Recasts,
    Likes,
    Mentions,
    Replies,
    Quotes,
}

impl NotificationFilterKind {
    /// The name of the kind.
    pub open spec fn name(self) -> Seq<char> {
        match self {
            NotificationFilterKind::Follows => "follows"@,
            NotificationFilterKind::Recasts => "recasts"@,
            NotificationFilterKind::Likes => "likes"@,
            NotificationFilterKind::Mentions => "mentions"@,
            NotificationFilterKind::Replies => "replies"@,
            NotificationFilterKind::Quotes => "quotes"@,
        }
    }

    /// The identifier of the variant in the type's declaration.
    pub open spec fn ident(self) -> Seq<char> {
        match self {
            NotificationFilterKind::Follows => "Follows"@,
            NotificationFilterKind::Recasts => "Recasts"@,
            NotificationFilterKind::Likes => "Likes"@,
            NotificationFilterKind::Mentions => "Mentions"@,
            NotificationFilterKind::Replies => "Replies"@,
            NotificationFilterKind::Quotes => "Quotes"@,
        }
    }

    /// Each kind is named by its identifier in small letters.
    pub proof fn lemma_names_follow_idents()
        ensures
            forall|k: NotificationFilterKind| #[trigger] k.name() == lowercase(k.ident()),
    {
        assert forall|k: NotificationFilterKind| #[trigger] k.name() == lowercase(k.ident()) by {
            match k {
                NotificationFilterKind::Follows => {
                    reveal_strlit("Follows");
                    reveal_strlit("follows");
                    let s = "Follows"@;
                    assert(s =~= seq!['F', 'o', 'l', 'l', 'o', 'w', 's']);
                    assert("follows"@ =~= seq!['f', 'o', 'l', 'l', 'o', 'w', 's']);
                    assert(NotificationFilterKind::Follows.name() =~= lowercase(s));
                },
                NotificationFilterKind::Recasts => {
                    reveal_strlit("Recasts");
                    reveal_strlit("recasts");
                    let s = "Recasts"@;
                    assert(s =~= seq!['R', 'e', 'c', 'a', 's', 't', 's']);
                    assert("recasts"@ =~= seq!['r', 'e', 'c', 'a', 's', 't', 's']);
                    assert(NotificationFilterKind::Recasts.name() =~= lowercase(s));
                },
                NotificationFilterKind::Likes => {
                    reveal_strlit("Likes");
                    reveal_strlit("likes");
                    let s = "Likes"@;
                    assert(s =~= seq!['L', 'i', 'k', 'e', 's']);
                    assert("likes"@ =~= seq!['l', 'i', 'k', 'e', 's']);
                    assert(NotificationFilterKind::Likes.name() =~= lowercase(s));
                },
                NotificationFilterKind::Mentions => {
                    reveal_strlit("Mentions");
                    reveal_strlit("mentions");
                    let s = "Mentions"@;
                    assert(s =~= seq!['M', 'e', 'n', 't', 'i', 'o', 'n', 's']);
                    assert("mentions"@ =~= seq!['m', 'e', 'n', 't', 'i', 'o', 'n', 's']);
                    assert(NotificationFilterKind::Mentions.name() =~= lowercase(s));
                },
                NotificationFilterKind::Replies => {
                    reveal_strlit("Replies");
                    reveal_strlit("replies");
                    let s = "Replies"@;
                    assert(s =~= seq!['R', 'e', 'p', 'l', 'i', 'e', 's']);
                    assert("replies"@ =~= seq!['r', 'e', 'p', 'l', 'i', 'e', 's']);
                    assert(NotificationFilterKind::Replies.name() =~= lowercase(s));
                },
                NotificationFilterKind::Quotes => {
                    reveal_strlit("Quotes");
                    reveal_strlit("quotes");
                    let s = "Quotes"@;
                    assert(s =~= seq!['Q', 'u', 'o', 't', 'e', 's']);
                    assert("quotes"@ =~= seq!['q', 'u', 'o', 't', 'e', 's']);
                    assert(NotificationFilterKind::Quotes.name() =~= lowercase(s));
                },
            }
        }
    }

    /// The name of the kind, as a text.
    pub fn as_str(&self) -> (text: &'static str)
        ensures
            text@ == self.name(),
            text@ == lowercase(self.ident()),
    {
        proof {
            NotificationFilterKind::lemma_names_follow_idents();
            assert(self.name() == lowercase(self.ident()));
        }
        match self {
            NotificationFilterKind::Follows => "follows",
            NotificationFilterKind::Recasts => "recasts",
            NotificationFilterKind::Likes => "likes",
            NotificationFilterKind::Mentions => "mentions",
            NotificationFilterKind::Replies => "replies",
            NotificationFilterKind::Quotes => "quotes",
        }
    }

    /// Distinct kinds have distinct names.
    pub proof fn lemma_name_injective(a: NotificationFilterKind, b: NotificationFilterKind)
        requires
            a.name() == b.name(),
        ensures
            a == b,
    {
        reveal_strlit("follows");
        reveal_strlit("recasts");
        reveal_strlit("likes");
        reveal_strlit("mentions");
        reveal_strlit("replies");
        reveal_strlit("quotes");
        assert("follows"@.len() == 7);
        assert("recasts"@.len() == 7);
        assert("likes"@.len() == 5);
        assert("mentions"@.len() == 8);
        assert("replies"@.len() == 7);
        assert("quotes"@.len() == 6);
        assert("follows"@[0] != "recasts"@[0]);
        assert("follows"@[0] != "replies"@[0]);
        assert("recasts"@[2] != "replies"@[2]);
    }

    /// The kind whose name is `text`, where there is one.
    pub fn from_name(text: &str) -> (r: Option<NotificationFilterKind>)
        ensures
            r matches Some(k) ==> k.name() == text@,
            r is None ==> forall|k: NotificationFilterKind| k.name() != text@,
            forall|k: NotificationFilterKind| (r == Some(k)) <==> k.name() == text@,
    {
        let r = if text_eq(text, "follows") {
            Some(NotificationFilterKind::Follows)
        } else if text_eq(text, "recasts") {
            Some(NotificationFilterKind::Recasts)
        } else if text_eq(text, "likes") {
            Some(NotificationFilterKind::Likes)
        } else if text_eq(text, "mentions") {
            Some(NotificationFilterKind::Mentions)
        } else if text_eq(text, "replies") {
            Some(NotificationFilterKind::Replies)
        } else if text_eq(text, "quotes") {
            Some(NotificationFilterKind::Quotes)
        } else {
            None
        };
        proof {
            if let Some(j) = r {
                assert forall|k: NotificationFilterKind| k.name() == text@ implies k == j by {
                    NotificationFilterKind::lemma_name_injective(k, j);
                }
            }
        }
        r
    }
}

/// Kind of a notification.
#[derive(Debug, Clone, Copy, PartialEq, Eq, Hash, Structural)]
pub enum NotificationKind {
    Follow,
    Follows,
    Recast,
    Recasts,
    Like,
    Likes,
    Mention,
    Mentions,
    Reply,
    Replies,
    Quote,
    Quotes,
}

impl NotificationKind {
    /// The name of the kind.
    pub open spec fn name(self) -> Seq<char> {
        match self {
            NotificationKind::Follow => "follow"@,
            NotificationKind::Follows => "follows"@,
            NotificationKind::Recast => "recast"@,
            NotificationKind::Recasts => "recasts"@,
            NotificationKind::Like => "like"@,
            NotificationKind::Likes => "likes"@,
            NotificationKind::Mention => "mention"@,
            NotificationKind::Mentions => "mentions"@,
            NotificationKind::Reply => "reply"@,
            NotificationKind::Replies => "replies"@,
            NotificationKind::Quote => "quote"@,
            NotificationKind::Quotes => "quotes"@,
        }
    }

    /// The identifier of the variant in the type's declaration.
    pub open spec fn ident(self) -> Seq<char> {
        match self {
            NotificationKind::Follow => "Follow"@,
            NotificationKind::Follows => "Follows"@,
            NotificationKind::Recast => "Recast"@,
            NotificationKind::Recasts => "Recasts"@,
            NotificationKind::Like => "Like"@,
            NotificationKind::Likes => "Likes"@,
            NotificationKind::Mention => "Mention"@,
            NotificationKind::Mentions => "Mentions"@,
            NotificationKind::Reply => "Reply"@,
            NotificationKind::Replies => "Replies"@,
            NotificationKind::Quote => "Quote"@,
            NotificationKind::Quotes => "Quotes"@,
        }
    }

    /// Each kind is named by its identifier in small letters.
    pub proof fn lemma_names_follow_idents()
        ensures
            forall|k: NotificationKind| #[trigger] k.name() == lowercase(k.ident()),
    {
        assert forall|k: NotificationKind| #[trigger] k.name() == lowercase(k.ident()) by {
            match k {
                NotificationKind::Follow => {
                    reveal_strlit("Follow");
                    reveal_strlit("follow");
                    let s = "Follow"@;
                    assert(s =~= seq!['F', 'o', 'l', 'l', 'o', 'w']);
                    assert("follow"@ =~= seq!['f', 'o', 'l', 'l', 'o', 'w']);
                    assert(NotificationKind::Follow.name() =~= lowercase(s));
                },
                NotificationKind::Follows => {
                    reveal_strlit("Follows");
                    reveal_strlit("follows");
                    let s = "Follows"@;
                    assert(s =~= seq!['F', 'o', 'l', 'l', 'o', 'w', 's']);
                    assert("follows"@ =~= seq!['f', 'o', 'l', 'l', 'o', 'w', 's']);
                    assert(NotificationKind::Follows.name() =~= lowercase(s));
                },
                NotificationKind::Recast => {
                    reveal_strlit("Recast");
                    reveal_strlit("recast");
                    let s = "Recast"@;
                    assert(s =~= seq!['R', 'e', 'c', 'a', 's', 't']);
                    assert("recast"@ =~= seq!['r', 'e', 'c', 'a', 's', 't']);
                    assert(NotificationKind::Recast.name() =~= lowercase(s));
                },
                NotificationKind::Recasts => {
                    reveal_strlit("Recasts");
                    reveal_strlit("recasts");
                    let s = "Recasts"@;
                    assert(s =~= seq!['R', 'e', 'c', 'a', 's', 't', 's']);
                    assert("recasts"@ =~= seq!['r', 'e', 'c', 'a', 's', 't', 's']);
                    assert(NotificationKind::Recasts.name() =~= lowercase(s));
                },
                NotificationKind::Like => {
                    reveal_strlit("Like");
                    reveal_strlit("like");
                    let s = "Like"@;
                    assert(s =~= seq!['L', 'i', 'k', 'e']);
                    assert("like"@ =~= seq!['l', 'i', 'k', 'e']);
                    assert(NotificationKind::Like.name() =~= lowercase(s));
                },
                NotificationKind::Likes => {
                    reveal_strlit("Likes");
                    reveal_strlit("likes");
                    let s = "Likes"@;
                    assert(s =~= seq!['L', 'i', 'k', 'e', 's']);
                    assert("likes"@ =~= seq!['l', 'i', 'k', 'e', 's']);
                    assert(NotificationKind::Likes.name() =~= lowercase(s));
                },
                NotificationKind::Mention => {
                    reveal_strlit("Mention");
                    reveal_strlit("mention");
                    let s = "Mention"@;
                    assert(s =~= seq!['M', 'e', 'n', 't', 'i', 'o', 'n']);
                    assert("mention"@ =~= seq!['m', 'e', 'n', 't', 'i', 'o', 'n']);
                    assert(NotificationKind::Mention.name() =~= lowercase(s));
                },
                NotificationKind::Mentions => {
                    reveal_strlit("Mentions");
                    reveal_strlit("mentions");
                    let s = "Mentions"@;
                    assert(s =~= seq!['M', 'e', 'n', 't', 'i', 'o', 'n', 's']);
                    assert("mentions"@ =~= seq!['m', 'e', 'n', 't', 'i', 'o', 'n', 's']);
                    assert(NotificationKind::Mentions.name() =~= lowercase(s));
                },
                NotificationKind::Reply => {
                    reveal_strlit("Reply");
                    reveal_strlit("reply");
                    let s = "Reply"@;
                    assert(s =~= seq!['R', 'e', 'p', 'l', 'y']);
                    assert("reply"@ =~= seq!['r', 'e', 'p', 'l', 'y']);
                    assert(NotificationKind::Reply.name() =~= lowercase(s));
                },
                NotificationKind::Replies => {
                    reveal_strlit("Replies");
                    reveal_strlit("replies");
                    let s = "Replies"@;
                    assert(s =~= seq!['R', 'e', 'p', 'l', 'i', 'e', 's']);
                    assert("replies"@ =~= seq!['r', 'e', 'p', 'l', 'i', 'e', 's']);
                    assert(NotificationKind::Replies.name() =~= lowercase(s));
                },
                NotificationKind::Quote => {
                    reveal_strlit("Quote");
                    reveal_strlit("quote");
                    let s = "Quote"@;
                    assert(s =~= seq!['Q', 'u', 'o', 't', 'e']);
                    assert("quote"@ =~= seq!['q', 'u', 'o', 't', 'e']);
                    assert(NotificationKind::Quote.name() =~= lowercase(s));
                },
                NotificationKind::Quotes => {
                    reveal_strlit("Quotes");
                    reveal_strlit("quotes");
                    let s = "Quotes"@;
                    assert(s =~= seq!['Q', 'u', 'o', 't', 'e', 's']);
                    assert("quotes"@ =~= seq!['q', 'u', 'o', 't', 'e', 's']);
                    assert(NotificationKind::Quotes.name() =~= lowercase(s));
                },
            }
        }
    }

    /// The name of the kind, as a text.
    pub fn as_str(&self) -> (text: &'static str)
        ensures
            text@ == self.name(),
            text@ == lowercase(self.ident()),
    {
        proof {
            NotificationKind::lemma_names_follow_idents();
            assert(self.name() == lowercase(self.ident()));
        }
        match self {
            NotificationKind::Follow => "follow",
            NotificationKind::Follows => "follows",
            NotificationKind::Recast => "recast",
            NotificationKind::Recasts => "recasts",
            NotificationKind::Like => "like",
            NotificationKind::Likes => "likes",
            NotificationKind::Mention => "mention",
            NotificationKind::Mentions => "mentions",
            NotificationKind::Reply => "reply",
            NotificationKind::Replies => "replies",
            NotificationKind::Quote => "quote",
            NotificationKind::Quotes => "quotes",
        }
    }

    /// Distinct kinds have distinct names.
    pub proof fn lemma_name_injective(a: NotificationKind, b: NotificationKind)
        requires
            a.name() == b.name(),
        ensures
            a == b,
    {
        reveal_strlit("follow");
        reveal_strlit("follows");
        reveal_strlit("recast");
        reveal_strlit("recasts");
        reveal_strlit("like");
        reveal_strlit("likes");
        reveal_strlit("mention");
        reveal_strlit("mentions");
        reveal_strlit("reply");
        reveal_strlit("replies");
        reveal_strlit("quote");
        reveal_strlit("quotes");
        assert("follow"@.len() == 6);
        assert("follows"@.len() == 7);
        assert("recast"@.len() == 6);
        assert("recasts"@.len() == 7);
        assert("like"@.len() == 4);
        assert("likes"@.len() == 5);
        assert("mention"@.len() == 7);
        assert("mentions"@.len() == 8);
        assert("reply"@.len() == 5);
        assert("replies"@.len() == 7);
        assert("quote"@.len() == 5);
        assert("quotes"@.len() == 6);
        assert("follow"@[0] != "recast"@[0]);
        assert("follow"@[0] != "quotes"@[0]);
        assert("follows"@[0] != "recasts"@[0]);
        assert("follows"@[0] != "mention"@[0]);
        assert("follows"@[0] != "replies"@[0]);
        assert("recast"@[0] != "quotes"@[0]);
        assert("recasts"@[0] != "mention"@[0]);
        assert("recasts"@[2] != "replies"@[2]);
        assert("likes"@[0] != "reply"@[0]);
        assert("likes"@[0] != "quote"@[0]);
        assert("mention"@[0] != "replies"@[0]);
        assert("reply"@[0] != "quote"@[0]);
    }

    /// The kind whose name is `text`, where there is one.
    #[verifier::rlimit(40)]
    pub fn from_name(text: &str) -> (r: Option<NotificationKind>)
        ensures
            r matches Some(k) ==> k.name() == text@,
            r is None ==> forall|k: NotificationKind| k.name() != text@,
            forall|k: NotificationKind| (r == Some(k)) <==> k.name() == text@,
    {
        let r = if text_eq(text, "follow") {
            Some(NotificationKind::Follow)
        } else if text_eq(text, "follows") {
            Some(NotificationKind::Follows)
        } else if text_eq(text, "recast") {
            Some(NotificationKind::Recast)
        } else if text_eq(text, "recasts") {
            Some(NotificationKind::Recasts)
        } else if text_eq(text, "like") {
            Some(NotificationKind::Like)
        } else if text_eq(text, "likes") {
            Some(NotificationKind::Likes)
        } else if text_eq(text, "mention") {
            Some(NotificationKind::Mention)
        } else if text_eq(text, "mentions") {
            Some(NotificationKind::Mentions)
        } else if text_eq(text, "reply") {
            Some(NotificationKind::Reply)
        } else if text_eq(text, "replies") {
            Some(NotificationKind::Replies)
        } else if text_eq(text, "quote") {
            Some(NotificationKind::Quote)
        } else if text_eq(text, "quotes") {
            Some(NotificationKind::Quotes)
        } else {
            None
        };
        proof {
            if let Some(j) = r {
                assert forall|k: NotificationKind| k.name() == text@ implies k == j by {
                    NotificationKind::lemma_name_injective(k, j);
                }
            }
        }
        r
    }
}

/// How a cast is identified: by URL or by hash.
#[derive(Debug, Clone, Copy, PartialEq, Eq, Hash, Structural)]
pub enum CastIdentifierKind {
    Url,
    Hash,
}

impl CastIdentifierKind {
    /// The name of the kind.
    pub open spec fn name(self) -> Seq<char> {
        match self {
            CastIdentifierKind::Url => "Url"@,
            CastIdentifierKind::Hash => "Hash"@,
        }
    }

    /// The identifier of the variant in the type's declaration.
    pub open spec fn ident(self) -> Seq<char> {
        match self {
            CastIdentifierKind::Url => "Url"@,
            CastIdentifierKind::Hash => "Hash"@,
        }
    }

    /// Each kind is named by its identifier itself.
    pub proof fn lemma_names_follow_idents()
        ensures
            forall|k: CastIdentifierKind| #[trigger] k.name() == k.ident(),
    {
        assert forall|k: CastIdentifierKind| #[trigger] k.name() == k.ident() by {
            match k {
                CastIdentifierKind::Url => {
                    reveal_strlit("Url");
                    let s = "Url"@;
                    assert(s =~= seq!['U', 'r', 'l']);
                    assert("Url"@ =~= seq!['U', 'r', 'l']);
                    assert(CastIdentifierKind::Url.name() =~= s);
                },
                CastIdentifierKind::Hash => {
                    reveal_strlit("Hash");
                    let s = "Hash"@;
                    assert(s =~= seq!['H', 'a', 's', 'h']);
                    assert("Hash"@ =~= seq!['H', 'a', 's', 'h']);
                    assert(CastIdentifierKind::Hash.name() =~= s);
                },
            }
        }
    }

    /// The name of the kind, as a text.
    pub fn as_str(&self) -> (text: &'static str)
        ensures
            text@ == self.name(),
            text@ == self.ident(),
    {
        proof {
            CastIdentifierKind::lemma_names_follow_idents();
            assert(self.name() == self.ident());
        }
        match self {
            CastIdentifierKind::Url => "Url",
            CastIdentifierKind::Hash => "Hash",
        }
    }

}

/// Order of casts in a bulk fetch.
#[derive(Debug, Clone, Copy, PartialEq, Eq, Hash, Structural)]
pub enum CastSortKind {
    Trending,
    Likes,
    Recasts,
    Replies,
    Recent,
}

impl CastSortKind {
    /// The name of the kind.
    pub open spec fn name(self) -> Seq<char> {
        match self {
            CastSortKind::Trending => "Trending"@,
            CastSortKind::Likes => "Likes"@,
            CastSortKind::Recasts => "Recasts"@,
            CastSortKind::Replies => "Replies"@,
            CastSortKind::Recent => "Recent"@,
        }
    }

    /// The identifier of the variant in the type's declaration.
    pub open spec fn ident(self) -> Seq<char> {
        match self {
            CastSortKind::Trending => "Trending"@,
            CastSortKind::Likes => "Likes"@,
            CastSortKind::Recasts => "Recasts"@,
            CastSortKind::Replies => "Replies"@,
            CastSortKind::Recent => "Recent"@,
        }
    }

    /// Each kind is named by its identifier itself.
    pub proof fn lemma_names_follow_idents()
        ensures
            forall|k: CastSortKind| #[trigger] k.name() == k.ident(),
    {
        assert forall|k: CastSortKind| #[trigger] k.name() == k.ident() by {
            match k {
                CastSortKind::Trending => {
                    reveal_strlit("Trending");
                    let s = "Trending"@;
                    assert(s =~= seq!['T', 'r', 'e', 'n', 'd', 'i', 'n', 'g']);
                    assert("Trending"@ =~= seq!['T', 'r', 'e', 'n', 'd', 'i', 'n', 'g']);
                    assert(CastSortKind::Trending.name() =~= s);
                },
                CastSortKind::Likes => {
                    reveal_strlit("Likes");
                    let s = "Likes"@;
                    assert(s =~= seq!['L', 'i', 'k', 'e', 's']);
                    assert("Likes"@ =~= seq!['L', 'i', 'k', 'e', 's']);
                    assert(CastSortKind::Likes.name() =~= s);
                },
                CastSortKind::Recasts => {
                    reveal_strlit("Recasts");
                    let s = "Recasts"@;
                    assert(s =~= seq!['R', 'e', 'c', 'a', 's', 't', 's']);
                    assert("Recasts"@ =~= seq!['R', 'e', 'c', 'a', 's', 't', 's']);
                    assert(CastSortKind::Recasts.name() =~= s);
                },
                CastSortKind::Replies => {
                    reveal_strlit("Replies");
                    let s = "Replies"@;
                    assert(s =~= seq!['R', 'e', 'p', 'l', 'i', 'e', 's']);
                    assert("Replies"@ =~= seq!['R', 'e', 'p', 'l', 'i', 'e', 's']);
                    assert(CastSortKind::Replies.name() =~= s);
                },
                CastSortKind::Recent => {
                    reveal_strlit("Recent");
                    let s = "Recent"@;
                    assert(s =~= seq!['R', 'e', 'c', 'e', 'n', 't']);
                    assert("Recent"@ =~= seq!['R', 'e', 'c', 'e', 'n', 't']);
                    assert(CastSortKind::Recent.name() =~= s);
                },
            }
        }
    }

    /// The name of the kind, as a text.
    pub fn as_str(&self) -> (text: &'static str)
        ensures
            text@ == self.name(),
            text@ == self.ident(),
    {
        proof {
            CastSortKind::lemma_names_follow_idents();
            assert(self.name() == self.ident());
        }
        match self {
            CastSortKind::Trending => "Trending",
            CastSortKind::Likes => "Likes",
            CastSortKind::Recasts => "Recasts",
            CastSortKind::Replies => "Replies",
            CastSortKind::Recent => "Recent",
        }
    }

    /// Distinct kinds have distinct names.
    pub proof fn lemma_name_injective(a: CastSortKind, b: CastSortKind)
        requires
            a.name() == b.name(),
        ensures
            a == b,
    {
        reveal_strlit("Trending");
        reveal_strlit("Likes");
        reveal_strlit("Recasts");
        reveal_strlit("Replies");
        reveal_strlit("Recent");
        assert("Trending"@.len() == 8);
        assert("Likes"@.len() == 5);
        assert("Recasts"@.len() == 7);
        assert("Replies"@.len() == 7);
        assert("Recent"@.len() == 6);
        assert("Recasts"@[2] != "Replies"@[2]);
    }

    /// The kind whose name is `text`, where there is one.
    pub fn from_name(text: &str) -> (r: Option<CastSortKind>)
        ensures
            r matches Some(k) ==> k.name() == text@,
            r is None ==> forall|k: CastSortKind| k.name() != text@,
            forall|k: CastSortKind| (r == Some(k)) <==> k.name() == text@,
    {
        let r = if text_eq(text, "Trending") {
            Some(CastSortKind::Trending)
        } else if text_eq(text, "Likes") {
            Some(CastSortKind::Likes)
        } else if text_eq(text, "Recasts") {
            Some(CastSortKind::Recasts)
        } else if text_eq(text, "Replies") {
            Some(CastSortKind::Replies)
        } else if text_eq(text, "Recent") {
            Some(CastSortKind::Recent)
        } else {
            None
        };
        proof {
            if let Some(j) = r {
                assert forall|k: CastSortKind| k.name() == text@ implies k == j by {
                    CastSortKind::lemma_name_injective(k, j);
                }
            }
        }
        r
    }
}

/// Order of replies in a conversation.
#[derive(Debug, Clone, Copy, PartialEq, Eq, Hash, Structural)]
pub enum ConversationSortKind {
    Chron,
    DescChron,
    Algorithmic,
}

impl ConversationSortKind {
    /// The name of the kind.
    pub open spec fn name(self) -> Seq<char> {
        match self {
            ConversationSortKind::Chron => "Chron"@,
            ConversationSortKind::DescChron => "DescChron"@,
            ConversationSortKind::Algorithmic => "Algorithmic"@,
        }
    }

    /// The identifier of the variant in the type's declaration.
    pub open spec fn ident(self) -> Seq<char> {
        match self {
            ConversationSortKind::Chron => "Chron"@,
            ConversationSortKind::DescChron => "DescChron"@,
            ConversationSortKind::Algorithmic => "Algorithmic"@,
        }
    }

    /// Each kind is named by its identifier itself.
    pub proof fn lemma_names_follow_idents()
        ensures
            forall|k: ConversationSortKind| #[trigger] k.name() == k.ident(),
    {
        assert forall|k: ConversationSortKind| #[trigger] k.name() == k.ident() by {
            match k {
                ConversationSortKind::Chron => {
                    reveal_strlit("Chron");
                    let s = "Chron"@;
                    assert(s =~= seq!['C', 'h', 'r', 'o', 'n']);
                    assert("Chron"@ =~= seq!['C', 'h', 'r', 'o', 'n']);
                    assert(ConversationSortKind::Chron.name() =~= s);
                },
                ConversationSortKind::DescChron => {
                    reveal_strlit("DescChron");
                    let s = "DescChron"@;
                    assert(s =~= seq!['D', 'e', 's', 'c', 'C', 'h', 'r', 'o', 'n']);
                    assert("DescChron"@ =~= seq!['D', 'e', 's', 'c', 'C', 'h', 'r', 'o', 'n']);
                    assert(ConversationSortKind::DescChron.name() =~= s);
                },
                ConversationSortKind::Algorithmic => {
                    reveal_strlit("Algorithmic");
                    let s = "Algorithmic"@;
                    assert(s =~= seq!['A', 'l', 'g', 'o', 'r', 'i', 't', 'h', 'm', 'i', 'c']);
                    assert("Algorithmic"@ =~= seq!['A', 'l', 'g', 'o', 'r', 'i', 't', 'h', 'm', 'i', 'c']);
                    assert(ConversationSortKind::Algorithmic.name() =~= s);
                },
            }
        }
    }

    /// The name of the kind, as a text.
    pub fn as_str(&self) -> (text: &'static str)
        ensures
            text@ == self.name(),
            text@ == self.ident(),
    {
        proof {
            ConversationSortKind::lemma_names_follow_idents();
            assert(self.name() == self.ident());
        }
        match self {
            ConversationSortKind::Chron => "Chron",
            ConversationSortKind::DescChron => "DescChron",
            ConversationSortKind::Algorithmic => "Algorithmic",
        }
    }

}

/// Which side of the quality fold a conversation shows.
#[derive(Debug, Clone, Copy, PartialEq, Eq, Hash, Structural)]
pub enum ConversationFoldKind {
    Above,
    Below,
}

impl ConversationFoldKind {
    /// The name of the kind.
    pub open spec fn name(self) -> Seq<char> {
        match self {
            ConversationFoldKind::Above => "Above"@,
            ConversationFoldKind::Below => "Below"@,
        }
    }

    /// The identifier of the variant in the type's declaration.
    pub open spec fn ident(self) -> Seq<char> {
        match self {
            ConversationFoldKind::Above => "Above"@,
            ConversationFoldKind::Below => "Below"@,
        }
    }

    /// Each kind is named by its identifier itself.
    pub proof fn lemma_names_follow_idents()
        ensures
            forall|k: ConversationFoldKind| #[trigger] k.name() == k.ident(),
    {
        assert forall|k: ConversationFoldKind| #[trigger] k.name() == k.ident() by {
            match k {
                ConversationFoldKind::Above => {
                    reveal_strlit("Above");
                    let s = "Above"@;
                    assert(s =~= seq!['A', 'b', 'o', 'v', 'e']);
                    assert("Above"@ =~= seq!['A', 'b', 'o', 'v', 'e']);
                    assert(ConversationFoldKind::Above.name() =~= s);
                },
                ConversationFoldKind::Below => {
                    reveal_strlit("Below");
                    let s = "Below"@;
                    assert(s =~= seq!['B', 'e', 'l', 'o', 'w']);
                    assert("Below"@ =~= seq!['B', 'e', 'l', 'o', 'w']);
                    assert(ConversationFoldKind::Below.name() =~= s);
                },
            }
        }
    }

    /// The name of the kind, as a text.
    pub fn as_str(&self) -> (text: &'static str)
        ensures
            text@ == self.name(),
            text@ == self.ident(),
    {
        proof {
            ConversationFoldKind::lemma_names_follow_idents();
            assert(self.name() == self.ident());
        }
        match self {
            ConversationFoldKind::Above => "Above",
            ConversationFoldKind::Below => "Below",
        }
    }

}

/// Kind of reactions a request asks for.
#[derive(Debug, Clone, Copy)]
pub enum ReactionFilter {
    All,
    Likes,
    Recasts,
}

impl ReactionFilter {
    /// The name of the kind.
    pub open spec fn name(self) -> Seq<char> {
        match self {
            ReactionFilter::All => "all"@,
            ReactionFilter::Likes => "likes"@,
            ReactionFilter::Recasts => "recasts"@,
        }
    }

    /// The identifier of the variant in the type's declaration.
    pub open spec fn ident(self) -> Seq<char> {
        match self {
            ReactionFilter::All => "All"@,
            ReactionFilter::Likes => "Likes"@,
            ReactionFilter::Recasts => "Recasts"@,
        }
    }

    /// Each kind is named by its identifier in small letters.
    pub proof fn lemma_names_follow_idents()
        ensures
            forall|k: ReactionFilter| #[trigger] k.name() == lowercase(k.ident()),
    {
        assert forall|k: ReactionFilter| #[trigger] k.name() == lowercase(k.ident()) by {
            match k {
                ReactionFilter::All => {
                    reveal_strlit("All");
                    reveal_strlit("all");
                    let s = "All"@;
                    assert(s =~= seq!['A', 'l', 'l']);
                    assert("all"@ =~= seq!['a', 'l', 'l']);
                    assert(ReactionFilter::All.name() =~= lowercase(s));
                },
                ReactionFilter::Likes => {
                    reveal_strlit("Likes");
                    reveal_strlit("likes");
                    let s = "Likes"@;
                    assert(s =~= seq!['L', 'i', 'k', 'e', 's']);
                    assert("likes"@ =~= seq!['l', 'i', 'k', 'e', 's']);
                    assert(ReactionFilter::Likes.name() =~= lowercase(s));
                },
                ReactionFilter::Recasts => {
                    reveal_strlit("Recasts");
                    reveal_strlit("recasts");
                    let s = "Recasts"@;
                    assert(s =~= seq!['R', 'e', 'c', 'a', 's', 't', 's']);
                    assert("recasts"@ =~= seq!['r', 'e', 'c', 'a', 's', 't', 's']);
                    assert(ReactionFilter::Recasts.name() =~= lowercase(s));
                },
            }
        }
    }

    /// The name of the kind, as a text.
    pub fn as_str(&self) -> (text: &'static str)
        ensures
            text@ == self.name(),
            text@ == lowercase(self.ident()),
    {
        proof {
            ReactionFilter::lemma_names_follow_idents();
            assert(self.name() == lowercase(self.ident()));
        }
        match self {
            ReactionFilter::All => "all",
            ReactionFilter::Likes => "likes",
            ReactionFilter::Recasts => "recasts",
        }
    }

}

/// Author of a parent cast, where there is one.
#[derive(Debug, Clone)]
pub struct Author {
    pub fid: Option<Fid>,
}

/// One user in the preview of a cast's reactions.
#[derive(Debug, Clone)]
pub struct CastReactionPreview {
    pub fid: Fid,
    pub fname: Option<String>,
}

/// Counts and previews of a cast's likes and recasts.
#[derive(Debug, Clone)]
pub struct CastReactionsSummary {
    pub likes_count: u64,
    pub recasts_count: u64,
    pub likes: Vec<CastReactionPreview>,
    pub recasts: Vec<CastReactionPreview>,
}

/// Number of replies to a cast.
#[derive(Debug, Clone)]
pub struct Replies {
    pub count: u64,
}

/// Span of text that a mention covers.
#[derive(Debug, Clone)]
pub struct Range {
    pub start: usize,
    pub end: usize,
}

/// Subscription state of a user.
#[derive(Debug, Clone)]
pub struct Pro {
    pub status: Option<String>,
    pub subscribed_at: Option<String>,
    pub expires_at: Option<String>,
}

/// Short form of a channel.
#[derive(Debug, Clone)]
pub struct ChannelDehydrated {
    pub object: String,
    pub id: String,
    pub name: String,
    pub image_url: Option<String>,
    pub viewer_context: Option<ChannelViewerContext>,
}

/// Postal address of a user's location.
#[derive(Debug, Clone)]
pub struct Address {
    pub city: Option<String>,
    pub state: Option<String>,
    pub state_code: Option<String>,
    pub country: Option<String>,
    pub country_code: Option<String>,
}

/// Profile banner image.
#[derive(Debug, Clone)]
pub struct Banner {
    pub url: String,
}

/// Addresses a user has verified.
#[derive(Debug, Clone)]
pub struct VerifiedAddresses {
    pub eth_addresses: Vec<String>,
    pub sol_addresses: Vec<String>,
    pub primary: PrimaryAddresses,
}

/// A user's primary verified addresses.
#[derive(Debug, Clone)]
pub struct PrimaryAddresses {
    pub eth_address: Option<String>,
    pub sol_address: Option<String>,
}

/// Account on another platform that a user has verified.
#[derive(Debug, Clone)]
pub struct VerifiedAccount {
    pub platform: String,
    pub username: String,
}

/// Cast as returned after it was sent.
#[derive(Debug, Clone)]
pub struct CreatedCast {
    pub hash: String,
    pub author: Author,
    pub text: String,
}

/// Relation of the viewer to a user.
#[derive(Debug, Clone)]
pub struct ViewerContext {
    pub following: bool,
    pub followed_by: bool,
    pub blocking: bool,
    pub blocked_by: bool,
}

/// Relation of the viewer to a channel.
#[derive(Debug, Clone)]
pub struct ChannelViewerContext {
    pub following: bool,
    pub role: Option<String>,
}

/// Relation of the viewer to a cast.
#[derive(Debug, Clone)]
pub struct CastViewerContext {
    pub liked: bool,
    pub recasted: bool,
}

/// Cursor of the next page, where there is one.
#[derive(Debug, Clone)]
pub struct NextCursor {
    pub cursor: Option<String>,
}

/// Answer to a sent cast.
#[derive(Debug, Clone)]
pub struct SendCastResponse {
    pub success: bool,
    pub cast: CreatedCast,
}

/// Answer to a deleted cast.
#[derive(Debug, Clone)]
pub struct DeleteCastResponse {
    pub success: bool,
    pub message: String,
}

/// A reaction as recorded.
#[derive(Debug, Clone)]
pub struct ReactionRecord {
    pub hash: String,
    pub target: String,
    pub kind: ReactionKind,
}

/// Answer to a published or deleted reaction.
#[derive(Debug, Clone)]
pub struct ReactionResponse {
    pub success: bool,
    pub message: Option<String>,
    pub reaction: Option<ReactionRecord>,
}

/// State of a signer.
#[derive(Debug, Clone)]
pub struct SignerResponse {
    pub public_key: String,
    pub signer_uuid: String,
    pub status: SignerStatus,
    pub fid: Option<Fid>,
    pub object: Option<String>,
    pub permissions: Vec<SignerPermission>,
    pub signer_approval_url: Option<String>,
}

/// Answer to a follow or unfollow request.
#[derive(Debug, Clone)]
pub struct FollowUserResponse {
    pub details: Vec<FollowUserResponseDetail>,
    pub success: bool,
}

/// Outcome for one followed or unfollowed user.
#[derive(Debug, Clone)]
pub struct FollowUserResponseDetail {
    pub hash: String,
    pub success: bool,
    pub target_fid: Fid,
}

/// Request for one cast.
#[derive(Debug, Clone)]
pub struct GetCastParams {
    pub identifier: String,
    pub id_type: CastIdentifierKind,
    pub viewer_fid: Option<Fid>,
}

/// Request for several casts by hash.
#[derive(Debug, Clone)]
pub struct BulkFetchCastsParams {
    pub casts: Vec<String>,
    pub sort_type: CastSortKind,
}

/// Query of a bulk fetch, with the hashes joined by commas.
#[derive(Debug, Clone)]
pub struct BulkFetchCastsRawQuery {
    pub casts: String,
    pub sort_type: CastSortKind,
}

/// Options of a conversation request.
#[derive(Debug, Clone, Default)]
pub struct CastConversationOptions {
    pub reply_depth: Option<u8>,
    pub include_chronological_parent_casts: Option<bool>,
    pub viewer_fid: Option<Fid>,
    pub sort_type: Option<ConversationSortKind>,
    pub fold: Option<ConversationFoldKind>,
    pub limit: Option<u8>,
    pub cursor: Option<String>,
}

/// Request for the conversation around a cast.
#[derive(Debug, Clone)]
pub struct GetCastConversationParams {
    pub identifier: String,
    pub id_type: CastIdentifierKind,
    pub options: CastConversationOptions,
}

/// Options of a reactions request.
#[derive(Debug, Clone, Default)]
pub struct GetReactionsOptions {
    pub viewer_fid: Option<Fid>,
    pub limit: Option<u8>,
    pub cursor: Option<String>,
}

/// Request for the reactions to a cast.
#[derive(Debug, Clone)]
pub struct GetReactionsParams {
    pub hash: String,
    pub types: Vec<ReactionFilter>,
    pub options: GetReactionsOptions,
}

/// Query of a reactions request, with the kinds joined by commas.
#[derive(Debug, Clone)]
pub struct GetReactionsRawQuery {
    pub hash: String,
    pub types: String,
    pub viewer_fid: Option<Fid>,
    pub limit: Option<u8>,
    pub cursor: Option<String>,
}

/// Request to publish (or delete) a reaction.
#[derive(Debug, Clone)]
pub struct PublishReactionParams {
    pub reaction_type: ReactionKind,
    pub signer_uuid: String,
    pub target: String,
    pub idem: Option<String>,
    pub target_author_fid: Option<Fid>,
}

/// Cast that a new cast embeds.
#[derive(Debug, Clone)]
pub struct CastEmbedCastId {
    pub fid: u32,
    pub hash: String,
}

/// Request to send a cast.
#[derive(Debug, Clone)]
pub struct SendCastParams {
    pub signer_uuid: String,
    pub text: String,
    pub parent: Option<String>,
    pub channel_id: Option<String>,
    pub embeds: Option<Vec<CastEmbed>>,
}

/// Request to delete a cast.
#[derive(Debug, Clone)]
pub struct DeleteCastParams {
    pub signer_uuid: String,
    pub target_hash: String,
}

/// Request for a user by name.
#[derive(Debug, Clone)]
pub struct GetUserByUsernameParams {
    pub username: String,
}

/// Request for users by Farcaster id.
#[derive(Debug, Clone)]
pub struct GetUsersByFidsParams {
    pub fids: Vec<Fid>,
}

/// Request to search users.
#[derive(Debug, Clone)]
pub struct SearchUsersParams {
    pub q: String,
    pub viewer_fid: Option<Fid>,
    pub limit: Option<u8>,
    pub cursor: Option<String>,
}

/// Request for the casts of a user.
#[derive(Debug, Clone, Default)]
pub struct GetUserCastsParams {
    pub fid: Fid,
    pub app_fid: Option<Fid>,
    pub viewer_fid: Option<Fid>,
    pub limit: Option<u8>,
    pub cursor: Option<String>,
    pub include_replies: Option<bool>,
    pub parent_url: Option<String>,
    pub channel_id: Option<String>,
}

/// Request to follow (or unfollow) users.
#[derive(Debug, Clone)]
pub struct FollowUserParams {
    pub signer_uuid: String,
    pub target_fids: Vec<Fid>,
}

/// Request for a user's personal feed.
#[derive(Debug, Clone)]
pub struct GetForYouFeedParams {
    pub fid: Fid,
    pub viewer_fid: Option<Fid>,
    pub limit: Option<u8>,
    pub cursor: Option<String>,
}

/// Request for the feed of the users a user follows.
#[derive(Debug, Clone)]
pub struct GetFollowingFeedParams {
    pub fid: Fid,
    pub viewer_fid: Option<Fid>,
    pub with_recasts: Option<bool>,
    pub limit: Option<u8>,
    pub cursor: Option<String>,
}

/// Query of a users request, with the ids joined by commas.
#[derive(Debug, Clone)]
pub struct GetUsersByFidsRawQuery {
    pub fids: String,
}

/// Request for the state of a signer.
#[derive(Debug, Clone)]
pub struct GetSignerStatusParams {
    pub signer_uuid: String,
}

/// Request to register a signed key.
#[derive(Debug, Clone)]
pub struct RegisterSignedKeyParams {
    pub app_fid: Fid,
    pub deadline: u64,
    pub signature: String,
    pub signer_uuid: String,
    pub redirect_url: Option<String>,
    pub sponsor: Option<SignedKeyRequestSponsor>,
}

/// Sponsor of a signed key request.
#[derive(Debug, Clone)]
pub struct SignedKeyRequestSponsor {
    pub fid: Fid,
    pub signature: String,
    pub sponsored_by_neynar: bool,
}

/// Request for a user's notifications.
#[derive(Debug, Clone, Default)]
pub struct GetNotificationsParams {
    pub fid: Fid,
    pub kinds: Option<Vec<NotificationFilterKind>>,
    pub limit: Option<u8>,
    pub cursor: Option<String>,
}

/// Query of a notifications request, with the kinds joined by commas.
#[derive(Debug, Clone)]
pub struct GetNotificationsRawQuery {
    pub fid: Fid,
    pub kinds: Option<String>,
    pub limit: Option<u8>,
    pub cursor: Option<String>,
}

/// Something a new cast embeds: a link or another cast.
#[derive(Debug, Clone)]
pub enum CastEmbed {
    Url { url: String },
    CastId { cast_id: CastEmbedCastId },
}

/// Answer to an unfollow request, shaped as a follow answer.
pub type UnfollowUserResponse = FollowUserResponse;

/// Request to delete a reaction, shaped as a publish request.
pub type DeleteReactionParams = PublishReactionParams;

/// Request to unfollow users, shaped as a follow request.
pub type UnfollowUserParams = FollowUserParams;

} // verus!
