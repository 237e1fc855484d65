use arena_bot::intent::{issue, try_or_approach, Intent, Order, ReturnCode, Target};

/// Plays the host: asks the orders one after the other as the caller of the
/// library does, answering each intent with `answer`.
fn perform(orders: &[Order], answer: impl Fn(&Intent) -> ReturnCode) -> Vec<Intent> {
    let mut sent = Vec::new();
    let mut last = None;
    for order in orders {
        if order.is_due(last) {
            let intent = order.intent();
            let status = answer(&intent);
            sent.push(intent);
            last = order.settle(last, status);
        }
    }
    sent
}

#[test]
fn an_accepted_action_is_not_followed_by_a_move() {
    let orders = try_or_approach(Intent::Withdraw(9), 9);
    assert_eq!(
        orders,
        vec![Order::Always(Intent::Withdraw(9)), Order::IfNotInRange(Intent::MoveTo(Target::Object(9)))]
    );
    assert_eq!(perform(&orders, |_| ReturnCode::Success), vec![Intent::Withdraw(9)]);
}

#[test]
fn an_action_out_of_range_is_followed_by_a_move() {
    let orders = try_or_approach(Intent::Withdraw(9), 9);
    assert_eq!(
        perform(&orders, |_| ReturnCode::NotInRange),
        vec![Intent::Withdraw(9), Intent::MoveTo(Target::Object(9))]
    );
}

#[test]
fn other_refusals_are_not_corrected_by_a_move() {
    let orders = try_or_approach(Intent::Transfer(4), 4);
    assert_eq!(perform(&orders, |_| ReturnCode::NotEnoughResources), vec![Intent::Transfer(4)]);
    assert_eq!(perform(&orders, |_| ReturnCode::Other), vec![Intent::Transfer(4)]);
}

#[test]
fn a_correction_goes_by_the_nearest_unconditional_order() {
    let orders = vec![
        Order::Always(Intent::Heal(1)),
        Order::Always(Intent::RangedAttack(2)),
        Order::IfNotInRange(Intent::RangedMassAttack),
        Order::IfNotInRange(Intent::MoveTo(Target::Object(2))),
        Order::Always(Intent::Attack(3)),
        Order::IfNotInRange(Intent::MoveTo(Target::Object(3))),
    ];
    let far_from_two = |intent: &Intent| match intent {
        Intent::RangedAttack(2) => ReturnCode::NotInRange,
        _ => ReturnCode::Success,
    };
    assert_eq!(
        perform(&orders, far_from_two),
        vec![
            Intent::Heal(1),
            Intent::RangedAttack(2),
            Intent::RangedMassAttack,
            Intent::MoveTo(Target::Object(2)),
            Intent::Attack(3),
        ]
    );
    let far_from_one = |intent: &Intent| match intent {
        Intent::Heal(1) => ReturnCode::NotInRange,
        _ => ReturnCode::Success,
    };
    assert_eq!(
        perform(&orders, far_from_one),
        vec![Intent::Heal(1), Intent::RangedAttack(2), Intent::Attack(3)]
    );
}

#[test]
fn issue_runs_a_plan_against_listed_answers() {
    let orders = vec![
        Order::Always(Intent::Harvest(5)),
        Order::IfNotInRange(Intent::MoveTo(Target::Object(5))),
    ];
    assert_eq!(
        issue(&orders, &vec![ReturnCode::NotInRange, ReturnCode::Success]),
        Some(vec![Intent::Harvest(5), Intent::MoveTo(Target::Object(5))])
    );
    assert_eq!(
        issue(&orders, &vec![ReturnCode::Success, ReturnCode::NotInRange]),
        Some(vec![Intent::Harvest(5)])
    );
    assert_eq!(issue(&orders, &vec![ReturnCode::Success]), None);
    assert_eq!(issue(&Vec::new(), &Vec::new()), Some(Vec::new()));
}

#[test]
fn the_answer_to_a_correction_does_not_count() {
    let orders = vec![
        Order::Always(Intent::Heal(1)),
        Order::IfNotInRange(Intent::RangedHeal(1)),
        Order::IfNotInRange(Intent::MoveTo(Target::Object(1))),
    ];
    // The ranged heal succeeds, and the move is issued all the same: it
    // goes by the answer to the heal.
    assert_eq!(
        issue(&orders, &vec![ReturnCode::NotInRange, ReturnCode::Success, ReturnCode::Success]),
        Some(vec![Intent::Heal(1), Intent::RangedHeal(1), Intent::MoveTo(Target::Object(1))])
    );
}
