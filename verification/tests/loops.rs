use loop_unwrap::{
    unwrap_break, unwrap_break_err, unwrap_continue, CallArgs, Effect, EscapeKind, Jump, Reaction,
    Unwrapped, UnwrappedErr,
};

/// Carries out `effects` in order: hands each line to `write_line` and
/// returns the jump that ends the list.
fn perform<L, M>(effects: Vec<Effect<L, M>>, mut write_line: impl FnMut(M)) -> Jump<L> {
    let mut jump: Option<Jump<L>> = None;
    for effect in effects {
        assert!(jump.is_none(), "nothing follows the jump");
        match effect {
            Effect::Write(line) => write_line(line),
            Effect::Jump(j) => jump = Some(j),
        }
    }
    jump.expect("an escape ends with a jump")
}

#[test]
fn skip_on_none_never_reaches_the_counter() {
    let mut counter: u32 = 0;
    let mut rounds: u32 = 0;
    while rounds < 3 {
        rounds += 1;
        let nothing: Option<i32> = None;
        let _value: i32 = match unwrap_continue(nothing, CallArgs::value()) {
            Unwrapped::Present(v) => v,
            Unwrapped::Absent(escape) => {
                assert_eq!(escape.jump.kind, EscapeKind::Skip);
                continue;
            }
        };
        counter += 1;
    }
    assert_eq!(rounds, 3);
    assert_eq!(counter, 0);
}

#[test]
fn propagating_exit_on_unparsable_text_makes_the_loop_report_failure() {
    let mut success_line_reached: bool = false;
    let mut sink: Vec<String> = Vec::new();
    let value: Result<i32, std::num::ParseIntError> = loop {
        let parsed = "x".parse::<i32>();
        let n: i32 = match unwrap_break_err(parsed, CallArgs::message("Couldn't parse number.")) {
            UnwrappedErr::Present(n) => n,
            UnwrappedErr::Failed(failure, escape) => {
                let jump = perform(escape.effects(), |line| sink.push(String::from(line)));
                assert_eq!(jump.kind, EscapeKind::ExitPropagatingFailure);
                break Err(failure);
            }
        };
        success_line_reached = true;
        break Ok(n + 1);
    };
    assert!(value.is_err());
    assert_eq!(value, "x".parse::<i32>());
    assert!(!success_line_reached);
    assert_eq!(sink, vec![String::from("Couldn't parse number.")]);
}

#[test]
fn skip_on_failure_never_reaches_the_break() {
    let mut rounds: u32 = 0;
    let mut break_reached: bool = false;
    loop {
        rounds += 1;
        if rounds > 4 {
            break;
        }
        let input = "Not a number";
        let _parsed: i32 = match unwrap_continue(input.parse::<i32>(), CallArgs::value()) {
            Unwrapped::Present(v) => v,
            Unwrapped::Absent(_) => continue,
        };
        break_reached = true;
        break;
    }
    assert_eq!(rounds, 5);
    assert!(!break_reached);
}

#[test]
fn skip_with_message_writes_one_line_per_skipped_round() {
    let mut sink: Vec<String> = Vec::new();
    let mut sum: i32 = 0;
    for input in ["1", "Not a number", "3", "four"] {
        let args = CallArgs::message("Please Enter a Number!");
        let n: i32 = match unwrap_continue(input.parse::<i32>(), args) {
            Unwrapped::Present(v) => v,
            Unwrapped::Absent(escape) => {
                let jump = perform(escape.effects(), |line| sink.push(String::from(line)));
                assert_eq!(jump, Jump { kind: EscapeKind::Skip, label: None });
                continue;
            }
        };
        sum += n;
    }
    assert_eq!(sum, 4);
    assert_eq!(
        sink,
        vec![String::from("Please Enter a Number!"), String::from("Please Enter a Number!")]
    );
}

#[test]
fn present_value_writes_nothing_and_the_body_goes_on() {
    let mut sink: Vec<String> = Vec::new();
    let mut rounds: u32 = 0;
    loop {
        rounds += 1;
        let some_value: i32 =
            match unwrap_continue(Some(32_i32), CallArgs::message("Please Enter a Number!")) {
                Unwrapped::Present(v) => v,
                Unwrapped::Absent(escape) => {
                    perform(escape.effects(), |line| sink.push(String::from(line)));
                    continue;
                }
            };
        assert_eq!(some_value, 32_i32);
        break;
    }
    assert_eq!(rounds, 1);
    assert!(sink.is_empty());
}

#[test]
fn exit_on_failure_leaves_the_loop_and_what_follows_is_reached() {
    let mut after_unwrap: u32 = 0;
    let mut rounds: u32 = 0;
    loop {
        rounds += 1;
        let input = "Not a number";
        let _parsed: i32 = match unwrap_break(input.parse::<i32>(), CallArgs::value()) {
            Unwrapped::Present(v) => v,
            Unwrapped::Absent(escape) => {
                assert_eq!(escape.jump.kind, EscapeKind::Exit);
                break;
            }
        };
        after_unwrap += 1;
    }
    assert_eq!(rounds, 1);
    assert_eq!(after_unwrap, 0);
}

#[test]
fn exit_with_message_writes_the_line_before_leaving() {
    let mut sink: Vec<String> = Vec::new();
    let left_after_lines: usize;
    loop {
        let input = "Not a number";
        let _parsed: i32 =
            match unwrap_break(input.parse::<i32>(), CallArgs::message("Please Enter a Number!")) {
                Unwrapped::Present(v) => v,
                Unwrapped::Absent(escape) => {
                    perform(escape.effects(), |line| sink.push(String::from(line)));
                    left_after_lines = sink.len();
                    break;
                }
            };
    }
    assert_eq!(left_after_lines, 1);
    assert_eq!(sink, vec![String::from("Please Enter a Number!")]);
}

#[test]
fn exit_on_a_present_value_does_not_leave_the_loop() {
    let mut sink: Vec<String> = Vec::new();
    let mut rounds: u32 = 0;
    while rounds < 3 {
        rounds += 1;
        let args = CallArgs::message("Please Enter a Number!");
        let some_value: i32 = match unwrap_break(Some(32_i32), args) {
            Unwrapped::Present(v) => v,
            Unwrapped::Absent(escape) => {
                perform(escape.effects(), |line| sink.push(String::from(line)));
                break;
            }
        };
        assert_eq!(some_value, 32_i32);
    }
    assert_eq!(rounds, 3);
    assert!(sink.is_empty());
}

#[test]
fn labeled_skip_restarts_the_outer_loop() {
    let inputs = ["t", "u", "7"];
    let mut sink: Vec<String> = Vec::new();
    let mut outer_rounds: usize = 0;
    let mut inner_rounds: u32 = 0;
    let found: i32 = 'main_skip: loop {
        let input = inputs[outer_rounds];
        outer_rounds += 1;
        loop {
            inner_rounds += 1;
            let args = CallArgs::message_label("Couldn't parse, retrying main loop", "main_skip");
            let n: i32 = match unwrap_continue(input.parse::<i32>(), args) {
                Unwrapped::Present(v) => v,
                Unwrapped::Absent(escape) => {
                    let jump = perform(escape.effects(), |line| sink.push(String::from(line)));
                    assert_eq!(jump.label, Some("main_skip"));
                    assert_eq!(jump.reaction(&None), Reaction::PassOutward);
                    assert_eq!(jump.reaction(&Some("main_skip")), Reaction::Continue);
                    continue 'main_skip;
                }
            };
            break 'main_skip n;
        }
    };
    assert_eq!(found, 7);
    assert_eq!(outer_rounds, 3);
    assert_eq!(inner_rounds, 3);
    assert_eq!(
        sink,
        vec![
            String::from("Couldn't parse, retrying main loop"),
            String::from("Couldn't parse, retrying main loop"),
        ]
    );
}

#[test]
fn labeled_exit_leaves_the_outer_loop() {
    let mut sink: Vec<String> = Vec::new();
    let mut outer_rounds: u32 = 0;
    let mut after_inner: u32 = 0;
    'main_exit: loop {
        outer_rounds += 1;
        loop {
            let args = CallArgs::message_label("Couldn't parse, exiting main loop", "main_exit");
            let _n: i32 = match unwrap_break("t".parse::<i32>(), args) {
                Unwrapped::Present(v) => v,
                Unwrapped::Absent(escape) => {
                    let jump = perform(escape.effects(), |line| sink.push(String::from(line)));
                    assert_eq!(jump.reaction(&None), Reaction::PassOutward);
                    assert_eq!(jump.reaction(&Some("main_exit")), Reaction::Break);
                    break 'main_exit;
                }
            };
            break;
        }
        after_inner += 1;
    }
    assert_eq!(outer_rounds, 1);
    assert_eq!(after_inner, 0);
    assert_eq!(sink, vec![String::from("Couldn't parse, exiting main loop")]);
}

#[test]
fn labeled_propagating_exit_makes_the_outer_loop_report_failure() {
    let mut success_line_reached: bool = false;
    let result: Result<i32, std::num::ParseIntError> = 'main_err: loop {
        loop {
            let _n: i32 = match unwrap_break_err("t".parse::<i32>(), CallArgs::label("main_err")) {
                UnwrappedErr::Present(v) => v,
                UnwrappedErr::Failed(failure, escape) => {
                    assert_eq!(escape.jump.label, Some("main_err"));
                    assert_eq!(escape.message, None);
                    break 'main_err Err(failure);
                }
            };
            success_line_reached = true;
            break 'main_err Ok(100);
        }
    };
    assert_eq!(result.is_err(), true);
    assert_eq!(result, "t".parse::<i32>());
    assert!(!success_line_reached);
}

/// An inner loop without a label, written with reactions in place of
/// labeled jumps: it returns the jump that it passes outward, if any.
fn inner_loop_driven_by_reactions(inner_rounds: &mut u32) -> Option<Jump<u32>> {
    loop {
        *inner_rounds += 1;
        let _n: i32 = match unwrap_continue(None::<i32>, CallArgs::label(1_u32)) {
            Unwrapped::Present(v) => v,
            Unwrapped::Absent(escape) => {
                let jump = perform(escape.effects(), |_: ()| panic!("no message was given"));
                match jump.reaction(&None) {
                    Reaction::Continue => continue,
                    Reaction::Break => break,
                    Reaction::PassOutward => return Some(jump),
                }
            }
        };
        break;
    }
    None
}

#[test]
fn reactions_route_a_labeled_skip_to_the_outer_loop() {
    let outer_label: Option<u32> = Some(1);
    let mut outer_rounds: u32 = 0;
    let mut inner_rounds: u32 = 0;
    let mut after_inner: u32 = 0;
    while outer_rounds < 3 {
        outer_rounds += 1;
        if let Some(jump) = inner_loop_driven_by_reactions(&mut inner_rounds) {
            match jump.reaction(&outer_label) {
                Reaction::Continue => continue,
                Reaction::Break => break,
                Reaction::PassOutward => panic!("the outer loop bears the label"),
            }
        }
        after_inner += 1;
    }
    assert_eq!(outer_rounds, 3);
    assert_eq!(inner_rounds, 3);
    assert_eq!(after_inner, 0);
}
