//! Steps for subscriptions.
//!
//! Creating a subscription makes a replication slot unless it is told not to,
//! and that cannot run inside a transaction. Dropping one cannot either where
//! it has a slot, which is not known here, so a drop never runs inside one.

use crate::diff::change::SubscriptionChange;
use crate::identifier::QnameModel;
use crate::ir::replication::Subscription;
use crate::model::models;
use crate::plan::raw_step::{
    no_targets, push_safe, push_step, safe_step, unnumbered, RawStep, StepKind, StepModel,
    TransactionConstraint,
};
use crate::plan::rewrite::subscriptions::{
    alter_subscription_add_publication, alter_subscription_connection,
    alter_subscription_drop_publication, alter_subscription_set_options, comment_on_subscription,
    comment_on_subscription_sql, create_subscription, create_subscription_sql, drop_subscription,
    drop_subscription_sql, subscription_add_sql, subscription_connection_sql,
    subscription_options_sql, subscription_remove_sql,
};
use crate::text::{as_deref, opt_text};
use vstd::prelude::*;

verus! {

/// Inside a transaction only where no slot is created.
pub open spec fn placement(s: Subscription) -> TransactionConstraint {
    if s.options.create_slot == Some(false) {
        TransactionConstraint::InTransaction
    } else {
        TransactionConstraint::OutsideTransaction
    }
}

fn place(s: &Subscription) -> (r: TransactionConstraint)
    ensures
        r == placement(*s),
{
    match s.options.create_slot {
        Some(false) => TransactionConstraint::InTransaction,
        _ => TransactionConstraint::OutsideTransaction,
    }
}

/// The steps that create a subscription: the subscription, then its comment.
pub open spec fn create_steps(s: Subscription) -> Seq<StepModel> {
    let first = seq![
        unnumbered(
            StepKind::CreateSubscription,
            false,
            None,
            Seq::empty(),
            create_subscription_sql(s),
            placement(s),
        ),
    ];
    match s.comment {
        Some(c) => first.push(
            safe_step(
                StepKind::CommentOnSubscription,
                Seq::empty(),
                comment_on_subscription_sql(s.name, Some(c@)),
            ),
        ),
        None => first,
    }
}

/// The steps for a change of a subscription.
#[verifier::opaque]
pub open spec fn subscription_steps(
    change: SubscriptionChange,
    destructive: bool,
    reason: Option<Seq<char>>,
) -> Seq<StepModel> {
    let nothing = Seq::<QnameModel>::empty();
    match change {
        SubscriptionChange::Create(s) => create_steps(s),
        SubscriptionChange::Drop { name } => seq![
            unnumbered(
                StepKind::DropSubscription,
                destructive,
                reason,
                nothing,
                drop_subscription_sql(name),
                TransactionConstraint::OutsideTransaction,
            ),
        ],
        SubscriptionChange::AlterConnection { name, new_connection } => seq![
            safe_step(
                StepKind::AlterSubscriptionConnection,
                nothing,
                subscription_connection_sql(name, new_connection@),
            ),
        ],
        SubscriptionChange::AddPublication { name, publication } => seq![
            safe_step(
                StepKind::AlterSubscriptionAddPublication,
                nothing,
                subscription_add_sql(name, publication),
            ),
        ],
        SubscriptionChange::DropPublication { name, publication } => seq![
            safe_step(
                StepKind::AlterSubscriptionDropPublication,
                nothing,
                subscription_remove_sql(name, publication),
            ),
        ],
        SubscriptionChange::SetOptions { name, options } => seq![
            safe_step(
                StepKind::AlterSubscriptionSetOptions,
                nothing,
                subscription_options_sql(name, options),
            ),
        ],
        SubscriptionChange::CommentOn { name, comment } => seq![
            safe_step(
                StepKind::CommentOnSubscription,
                nothing,
                comment_on_subscription_sql(name, opt_text(comment)),
            ),
        ],
    }
}

/// Emits the steps for a change of a subscription.
pub fn emit(
    change: SubscriptionChange,
    destructive: bool,
    destructive_reason: Option<String>,
    out: &mut Vec<RawStep>,
)
    ensures
        models(final(out)@) == models(old(out)@) + subscription_steps(
            change,
            destructive,
            opt_text(destructive_reason),
        ),
{
    let ghost before = models(out@);
    match &change {
        SubscriptionChange::Create(s) => {
            push_step(
                out,
                StepKind::CreateSubscription,
                false,
                None,
                no_targets(),
                create_subscription(s),
                place(s),
            );
            match &s.comment {
                Some(c) => {
                    push_safe(
                        out,
                        StepKind::CommentOnSubscription,
                        no_targets(),
                        comment_on_subscription(&s.name, Some(c.as_str())),
                    );
                },
                None => {},
            }
        },
        SubscriptionChange::Drop { name } => {
            push_step(
                out,
                StepKind::DropSubscription,
                destructive,
                destructive_reason,
                no_targets(),
                drop_subscription(name),
                TransactionConstraint::OutsideTransaction,
            );
        },
        SubscriptionChange::AlterConnection { name, new_connection } => {
            push_safe(
                out,
                StepKind::AlterSubscriptionConnection,
                no_targets(),
                alter_subscription_connection(name, new_connection.as_str()),
            );
        },
        SubscriptionChange::AddPublication { name, publication } => {
            push_safe(
                out,
                StepKind::AlterSubscriptionAddPublication,
                no_targets(),
                alter_subscription_add_publication(name, publication),
            );
        },
        SubscriptionChange::DropPublication { name, publication } => {
            push_safe(
                out,
                StepKind::AlterSubscriptionDropPublication,
                no_targets(),
                alter_subscription_drop_publication(name, publication),
            );
        },
        SubscriptionChange::SetOptions { name, options } => {
            push_safe(
                out,
                StepKind::AlterSubscriptionSetOptions,
                no_targets(),
                alter_subscription_set_options(name, options),
            );
        },
        SubscriptionChange::CommentOn { name, comment } => {
            push_safe(
                out,
                StepKind::CommentOnSubscription,
                no_targets(),
                comment_on_subscription(name, as_deref(comment)),
            );
        },
    }
    proof {
        reveal(subscription_steps);
    }
    assert(models(out@) =~= before + subscription_steps(
        change,
        destructive,
        opt_text(destructive_reason),
    ));
}

} // verus!
