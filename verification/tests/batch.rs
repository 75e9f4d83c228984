use redeemer::batch::{
    failed_codes, skip_cached, Batch, BatchError, BatchStage, PointerError, PENALTY_DWELL_MILLIS,
    SUCCESS_DWELL_MILLIS,
};
use redeemer::cache::Cache;
use redeemer::config::Instructions;
use redeemer::driver::{Action, Coordinates, Input, Reply};
use redeemer::interaction::Interactor;
use redeemer::progress::ProgressEvent;

const TARGET: Coordinates = Coordinates { x: 300, y: 900 };
const ORIGIN: Coordinates = Coordinates { x: 17, y: -4 };

fn interactor(slow: bool) -> Interactor {
    Interactor::new(Instructions { unlock_chest: TARGET }, slow, false)
}

fn strings(codes: &[&str]) -> Vec<String> {
    codes.iter().map(|code| code.to_string()).collect()
}

/// A driver that carries everything out, except what it is told to fail.
struct Driver {
    cache_file: Option<String>,
    clipboard: String,
    asked: Vec<Action>,
    /// The code under redemption, as it was announced.
    current: Option<String>,
    /// Codes whose confirming key fails.
    bad_codes: Vec<String>,
    fail_locate: bool,
    fail_return: bool,
    fail_save: bool,
}

impl Driver {
    fn new(cache_file: Option<&str>) -> Driver {
        Driver {
            cache_file: cache_file.map(|text| text.to_string()),
            clipboard: "what the user copied".to_string(),
            asked: Vec::new(),
            current: None,
            bad_codes: Vec::new(),
            fail_locate: false,
            fail_return: false,
            fail_save: false,
        }
    }

    fn perform(&mut self, action: &Action) -> Reply {
        self.asked.push(action.clone());
        match action {
            Action::LoadCache => match &self.cache_file {
                Some(text) => Reply::Text(text.clone()),
                None => Reply::Failed,
            },
            Action::ReadClipboard => Reply::Text(self.clipboard.clone()),
            Action::LocatePointer => {
                if self.fail_locate {
                    Reply::Failed
                } else {
                    Reply::Position(ORIGIN)
                }
            }
            Action::Progress(ProgressEvent::CodeStarted(code)) => {
                self.current = Some(code.clone());
                Reply::Done
            }
            Action::Input(Input::Key(redeemer::driver::Key::Return, _)) => {
                let bad = match &self.current {
                    Some(code) => self.bad_codes.contains(code),
                    None => false,
                };
                if bad {
                    Reply::Failed
                } else {
                    Reply::Done
                }
            }
            Action::Input(Input::MovePointer(at)) if *at == ORIGIN => {
                if self.fail_return {
                    Reply::Failed
                } else {
                    Reply::Done
                }
            }
            Action::SaveCache(_) => {
                if self.fail_save {
                    Reply::Failed
                } else {
                    Reply::Done
                }
            }
            _ => Reply::Done,
        }
    }

    fn run(&mut self, mut batch: Batch) -> Result<(), BatchError> {
        let mut steps: usize = 0;
        while let Some(action) = batch.pending() {
            let reply = self.perform(&action);
            batch = batch.resolve(reply);
            steps += 1;
            assert!(steps < 100_000, "a batch must come to an end");
        }
        assert!(batch.finished());
        assert_eq!(batch.stage(), BatchStage::Done);
        batch.outcome().expect("a finished batch has an outcome")
    }

    fn announced(&self) -> Vec<String> {
        self.asked
            .iter()
            .filter_map(|action| match action {
                Action::Progress(ProgressEvent::CodeStarted(code)) => Some(code.clone()),
                _ => None,
            })
            .collect()
    }

    fn seeded(&self) -> Vec<String> {
        self.asked
            .iter()
            .filter_map(|action| match action {
                Action::WriteClipboard { contents, show: true } => Some(contents.clone()),
                _ => None,
            })
            .collect()
    }

    fn restored(&self) -> usize {
        self.asked
            .iter()
            .filter(|action| matches!(action, Action::WriteClipboard { show: false, .. }))
            .count()
    }

    fn saved(&self) -> Vec<String> {
        self.asked
            .iter()
            .filter_map(|action| match action {
                Action::SaveCache(text) => Some(text.clone()),
                _ => None,
            })
            .collect()
    }

    fn count(&self, wanted: &Action) -> usize {
        self.asked.iter().filter(|action| *action == wanted).count()
    }
}

#[test]
fn dwell_constants() {
    assert_eq!(SUCCESS_DWELL_MILLIS, 2600);
    assert_eq!(PENALTY_DWELL_MILLIS, 100);
}

#[test]
fn an_empty_batch_is_over_at_once() {
    let batch = interactor(false).redeem_many(Vec::new());
    assert!(batch.finished());
    assert_eq!(batch.pending(), None);
    assert_eq!(batch.outcome(), Some(Ok(())));
}

#[test]
fn an_empty_batch_asks_nothing() {
    let mut driver = Driver::new(Some("ABCD12345678"));
    let outcome = driver.run(interactor(false).redeem_many(Vec::new()));
    assert_eq!(outcome, Ok(()));
    assert!(driver.asked.is_empty());
}

#[test]
fn a_batch_loads_the_cache_first() {
    let batch = interactor(false).redeem_many(strings(&["ABCD12345678"]));
    assert_eq!(batch.stage(), BatchStage::Loading);
    assert_eq!(batch.pending(), Some(Action::LoadCache));
    assert_eq!(batch.outcome(), None);
    assert!(batch.queue().is_empty());
}

#[test]
fn a_cached_code_is_not_redeemed_again() {
    let mut driver = Driver::new(Some("ABCD12345678"));
    let batch = interactor(false).redeem_many(strings(&["ABCD12345678", "WXYZ98765432"]));
    let outcome = driver.run(batch);
    assert_eq!(outcome, Ok(()));
    assert_eq!(driver.announced(), strings(&["WXYZ98765432"]));
    assert_eq!(driver.seeded(), strings(&["WXYZ98765432"]));
    assert_eq!(driver.count(&Action::OpenClipboard), 1);
    assert_eq!(driver.count(&Action::StartProgress(1)), 1);
}

#[test]
fn the_queue_holds_what_the_cache_does_not() {
    let batch = interactor(false).redeem_many(strings(&["ABCD12345678", "WXYZ98765432"]));
    let batch = batch.resolve(Reply::Text("ABCD12345678\n".to_string()));
    assert_eq!(batch.queue(), &strings(&["WXYZ98765432"]));
    assert_eq!(batch.stage(), BatchStage::Locating);
    assert_eq!(batch.pending(), Some(Action::LocatePointer));
}

#[test]
fn a_cached_code_is_matched_as_it_was_given() {
    // the cache holds the code with its dashes; without them it is another string
    let mut driver = Driver::new(Some("ABCD-1234-5678"));
    let batch = interactor(false).redeem_many(strings(&["ABCD12345678", "ABCD-1234-5678"]));
    let outcome = driver.run(batch);
    assert_eq!(outcome, Ok(()));
    assert_eq!(driver.announced(), strings(&["ABCD12345678"]));
}

#[test]
fn nothing_to_do_when_everything_is_cached() {
    let mut driver = Driver::new(Some("ABCD12345678\nWXYZ98765432"));
    let batch = interactor(false).redeem_many(strings(&["WXYZ98765432", "ABCD12345678"]));
    let outcome = driver.run(batch);
    assert_eq!(outcome, Ok(()));
    assert_eq!(driver.asked, vec![Action::LoadCache]);
}

#[test]
fn a_cache_that_cannot_be_read_counts_as_empty() {
    let mut driver = Driver::new(None);
    let batch = interactor(false).redeem_many(strings(&["ABCD12345678"]));
    let outcome = driver.run(batch);
    assert_eq!(outcome, Ok(()));
    assert_eq!(driver.announced(), strings(&["ABCD12345678"]));
    assert_eq!(driver.saved(), strings(&["ABCD12345678"]));
}

#[test]
fn a_successful_batch_in_full() {
    let mut driver = Driver::new(Some(""));
    let batch = interactor(false).redeem_many(strings(&["ABCD-1234-5678"]));
    let outcome = driver.run(batch);
    assert_eq!(outcome, Ok(()));
    let asked = &driver.asked;
    assert_eq!(asked[0], Action::LoadCache);
    assert_eq!(asked[1], Action::LocatePointer);
    assert_eq!(asked[2], Action::StartProgress(1));
    assert_eq!(
        asked[3],
        Action::Progress(ProgressEvent::CodeStarted("ABCD-1234-5678".to_string()))
    );
    assert_eq!(asked[4], Action::OpenClipboard);
    // the redemption asks 34 things
    assert_eq!(
        asked[37],
        Action::WriteClipboard { contents: "what the user copied".to_string(), show: false }
    );
    assert_eq!(asked[38], Action::Progress(ProgressEvent::Increment));
    assert_eq!(asked[39], Action::Dwell(2600));
    assert_eq!(asked[40], Action::Progress(ProgressEvent::Finished));
    assert_eq!(asked[41], Action::Input(Input::MovePointer(ORIGIN)));
    assert_eq!(asked[42], Action::SaveCache("ABCD-1234-5678".to_string()));
    assert_eq!(asked.len(), 43);
}

#[test]
fn the_clipboard_gets_the_code_without_dashes_and_the_cache_the_code_as_given() {
    let mut driver = Driver::new(Some(""));
    let batch = interactor(false).redeem_many(strings(&["ABCD-1234-5678"]));
    driver.run(batch).unwrap();
    assert_eq!(driver.seeded(), strings(&["ABCD12345678"]));
    assert_eq!(driver.saved(), strings(&["ABCD-1234-5678"]));
}

#[test]
fn the_pointer_goes_back_where_it_was() {
    let mut driver = Driver::new(Some(""));
    let codes = strings(&["ABCD12345678", "WXYZ98765432", "DEMO-REDE-EMER-IDLE"]);
    let outcome = driver.run(interactor(false).redeem_many(codes));
    assert_eq!(outcome, Ok(()));
    let n = driver.asked.len();
    assert_eq!(driver.asked[n - 2], Action::Input(Input::MovePointer(ORIGIN)));
    assert_eq!(driver.count(&Action::Input(Input::MovePointer(ORIGIN))), 1);
    assert_eq!(driver.count(&Action::LocatePointer), 1);
}

#[test]
fn the_cache_is_saved_as_it_stands_in_memory() {
    let mut driver = Driver::new(Some("OLDCODE12345\n"));
    let codes = strings(&["ABCD12345678", "WXYZ98765432"]);
    let outcome = driver.run(interactor(false).redeem_many(codes));
    assert_eq!(outcome, Ok(()));
    assert_eq!(driver.saved(), strings(&["OLDCODE12345\nABCD12345678\nWXYZ98765432"]));
    let mut expected = Cache::from_file("OLDCODE12345\n");
    expected.push("ABCD12345678".to_string());
    expected.push("WXYZ98765432".to_string());
    assert_eq!(driver.saved()[0], expected.write());
    assert!(matches!(driver.asked.last(), Some(Action::SaveCache(_))));
}

#[test]
fn a_full_cache_forgets_its_oldest_code() {
    let mut file = String::new();
    for n in 0..50 {
        file.push_str(&format!("CODE{:08}\n", n));
    }
    let mut driver = Driver::new(Some(&file));
    let outcome = driver.run(interactor(false).redeem_many(strings(&["ABCD12345678"])));
    assert_eq!(outcome, Ok(()));
    let saved = &driver.saved()[0];
    let lines: Vec<&str> = saved.split('\n').collect();
    assert_eq!(lines.len(), 50);
    assert_eq!(lines[0], "CODE00000001");
    assert_eq!(lines[49], "ABCD12345678");
}

#[test]
fn one_failure_in_three_does_not_stop_the_batch() {
    let mut driver = Driver::new(Some(""));
    driver.bad_codes = strings(&["WXYZ-9876-5432"]);
    let codes = strings(&["ABCD12345678", "WXYZ-9876-5432", "DEMO-REDE-EMER-IDLE"]);
    let outcome = driver.run(interactor(false).redeem_many(codes.clone()));
    assert_eq!(outcome, Err(BatchError::Codes(strings(&["WXYZ-9876-5432"]))));
    assert_eq!(driver.announced(), codes);
    assert_eq!(driver.seeded(), strings(&["ABCD12345678", "WXYZ98765432", "DEMOREDEEMERIDLE"]));
    assert_eq!(driver.count(&Action::Progress(ProgressEvent::Increment)), 3);
}

#[test]
fn a_failed_batch_neither_moves_the_pointer_back_nor_saves() {
    let mut driver = Driver::new(Some(""));
    driver.bad_codes = strings(&["WXYZ98765432"]);
    let codes = strings(&["ABCD12345678", "WXYZ98765432"]);
    let outcome = driver.run(interactor(false).redeem_many(codes));
    assert_eq!(outcome, Err(BatchError::Codes(strings(&["WXYZ98765432"]))));
    assert!(driver.saved().is_empty());
    assert_eq!(driver.count(&Action::Input(Input::MovePointer(ORIGIN))), 0);
    assert_eq!(driver.asked.last(), Some(&Action::Progress(ProgressEvent::Finished)));
}

#[test]
fn failures_come_in_the_order_of_the_batch() {
    let mut driver = Driver::new(Some(""));
    driver.bad_codes = strings(&["WXYZ98765432", "AAAA11112222"]);
    let codes = strings(&["WXYZ98765432", "ABCD12345678", "AAAA11112222"]);
    let outcome = driver.run(interactor(false).redeem_many(codes));
    assert_eq!(outcome, Err(BatchError::Codes(strings(&["WXYZ98765432", "AAAA11112222"]))));
}

#[test]
fn every_code_failing_fails_every_code() {
    let mut driver = Driver::new(Some(""));
    let codes = strings(&["ABCD12345678", "WXYZ98765432"]);
    driver.bad_codes = codes.clone();
    let outcome = driver.run(interactor(false).redeem_many(codes.clone()));
    assert_eq!(outcome, Err(BatchError::Codes(codes)));
}

#[test]
fn a_code_of_the_wrong_length_fails_without_touching_anything() {
    let mut driver = Driver::new(Some(""));
    let outcome = driver.run(interactor(false).redeem_many(strings(&["TOO-SHORT"])));
    assert_eq!(outcome, Err(BatchError::Codes(strings(&["TOO-SHORT"]))));
    assert_eq!(
        driver.asked,
        vec![
            Action::LoadCache,
            Action::LocatePointer,
            Action::StartProgress(1),
            Action::Progress(ProgressEvent::CodeStarted("TOO-SHORT".to_string())),
            Action::Progress(ProgressEvent::Increment),
            Action::Dwell(100),
            Action::Progress(ProgressEvent::Finished),
        ]
    );
}

#[test]
fn a_code_of_the_wrong_length_does_not_stop_the_others() {
    let mut driver = Driver::new(Some(""));
    let codes = strings(&["ABCD12345678", "BAD", "WXYZ98765432"]);
    let outcome = driver.run(interactor(false).redeem_many(codes.clone()));
    assert_eq!(outcome, Err(BatchError::Codes(strings(&["BAD"]))));
    assert_eq!(driver.announced(), codes);
    assert_eq!(driver.seeded(), strings(&["ABCD12345678", "WXYZ98765432"]));
    assert_eq!(driver.restored(), 2);
}

#[test]
fn the_wait_after_a_code_depends_on_how_it_went() {
    let mut driver = Driver::new(Some(""));
    driver.bad_codes = strings(&["WXYZ98765432"]);
    let codes = strings(&["ABCD12345678", "WXYZ98765432"]);
    let _ = driver.run(interactor(false).redeem_many(codes));
    let settles: Vec<u64> = driver
        .asked
        .windows(2)
        .filter_map(|pair| match (&pair[0], &pair[1]) {
            (Action::Progress(ProgressEvent::Increment), Action::Dwell(millis)) => Some(*millis),
            _ => None,
        })
        .collect();
    assert_eq!(settles, vec![2600, 100]);
}

#[test]
fn a_slow_batch_waits_longer_after_each_code() {
    let mut driver = Driver::new(Some(""));
    driver.bad_codes = strings(&["WXYZ98765432"]);
    let codes = strings(&["ABCD12345678", "WXYZ98765432"]);
    let _ = driver.run(interactor(true).redeem_many(codes));
    assert_eq!(driver.count(&Action::Dwell(3100)), 1);
    assert_eq!(driver.count(&Action::Dwell(600)), 1);
}

#[test]
fn the_clipboard_is_restored_once_for_each_code() {
    let mut driver = Driver::new(Some(""));
    driver.bad_codes = strings(&["WXYZ98765432"]);
    let codes = strings(&["ABCD12345678", "WXYZ98765432", "AAAA11112222"]);
    let _ = driver.run(interactor(false).redeem_many(codes));
    assert_eq!(driver.restored(), 3);
    assert_eq!(driver.count(&Action::OpenClipboard), 3);
}

#[test]
fn a_pointer_that_cannot_be_located_ends_the_batch() {
    let mut driver = Driver::new(Some(""));
    driver.fail_locate = true;
    let outcome = driver.run(interactor(false).redeem_many(strings(&["ABCD12345678"])));
    assert_eq!(outcome, Err(BatchError::Pointer(PointerError::Locate)));
    assert_eq!(driver.asked, vec![Action::LoadCache, Action::LocatePointer]);
}

#[test]
fn a_pointer_that_cannot_be_moved_back_keeps_the_cache_from_being_saved() {
    let mut driver = Driver::new(Some(""));
    driver.fail_return = true;
    let outcome = driver.run(interactor(false).redeem_many(strings(&["ABCD12345678"])));
    assert_eq!(outcome, Err(BatchError::Pointer(PointerError::Restore)));
    assert!(driver.saved().is_empty());
    assert_eq!(driver.asked.last(), Some(&Action::Input(Input::MovePointer(ORIGIN))));
}

#[test]
fn a_cache_that_cannot_be_saved_does_not_fail_the_batch() {
    let mut driver = Driver::new(Some(""));
    driver.fail_save = true;
    let outcome = driver.run(interactor(false).redeem_many(strings(&["ABCD12345678"])));
    assert_eq!(outcome, Ok(()));
}

#[test]
fn the_same_code_twice_is_redeemed_twice() {
    let mut driver = Driver::new(Some(""));
    let codes = strings(&["ABCD12345678", "ABCD12345678"]);
    let outcome = driver.run(interactor(false).redeem_many(codes.clone()));
    assert_eq!(outcome, Ok(()));
    assert_eq!(driver.announced(), codes);
    assert_eq!(driver.saved(), strings(&["ABCD12345678\nABCD12345678"]));
}

#[test]
fn pointer_error_messages() {
    assert_eq!(PointerError::Locate.message(), "Failed to get mouse position");
    assert_eq!(PointerError::Restore.message(), "Failed to move mouse");
}

#[test]
fn a_finished_batch_stays_finished() {
    let batch = interactor(false).redeem_many(strings(&["BAD"]));
    let mut batch = batch.resolve(Reply::Failed);
    let mut steps: usize = 0;
    while batch.pending().is_some() {
        batch = batch.resolve(Reply::Position(ORIGIN));
        steps += 1;
        assert!(steps < 100);
    }
    let outcome = batch.outcome();
    let batch = batch.resolve(Reply::Done).resolve(Reply::Failed);
    assert!(batch.finished());
    assert_eq!(batch.outcome(), outcome);
    assert_eq!(batch.pending(), None);
}

#[test]
fn skip_cached_keeps_order_and_duplicates() {
    let mut cache = Cache::new();
    cache.push("B".to_string());
    let queue = skip_cached(&strings(&["A", "B", "C", "A", "B"]), &cache);
    assert_eq!(queue, strings(&["A", "C", "A"]));
}

#[test]
fn skip_cached_of_an_empty_cache_keeps_everything() {
    let cache = Cache::new();
    let codes = strings(&["A", "B"]);
    assert_eq!(skip_cached(&codes, &cache), codes);
    assert!(skip_cached(&Vec::new(), &cache).is_empty());
}

#[test]
fn failed_codes_picks_the_codes_that_failed() {
    let queue = strings(&["A", "B", "C", "D"]);
    assert_eq!(failed_codes(&queue, &vec![true, false, true, false]), strings(&["B", "D"]));
    assert_eq!(failed_codes(&queue, &vec![false]), strings(&["A"]));
    assert!(failed_codes(&queue, &vec![true, true, true, true]).is_empty());
    assert!(failed_codes(&queue, &Vec::new()).is_empty());
}

#[test]
fn failed_codes_of_too_many_results_is_empty() {
    let queue = strings(&["A"]);
    assert!(failed_codes(&queue, &vec![false, false]).is_empty());
}

#[test]
fn a_batch_ends_within_its_bound_whatever_the_answers_are() {
    assert_eq!(redeemer::batch::ANSWERS_PER_CODE, 37);
    let replies = [
        Reply::Done,
        Reply::Failed,
        Reply::Text("OTHER-CODE".to_string()),
        Reply::Position(ORIGIN),
    ];
    let codes = strings(&["ABCD12345678", "BAD", "WXYZ98765432"]);
    for first in &replies {
        for second in &replies {
            for third in &replies {
                let mut batch = interactor(false).redeem_many(codes.clone());
                let mut answers: usize = 0;
                while batch.pending().is_some() {
                    let reply = match answers % 3 {
                        0 => first.clone(),
                        1 => second.clone(),
                        _ => third.clone(),
                    };
                    batch = batch.resolve(reply);
                    answers += 1;
                    assert!(answers <= 3 * 37 + 6);
                }
                assert!(batch.outcome().is_some());
            }
        }
    }
}

#[test]
fn a_willing_driver_needs_every_answer_of_the_bound() {
    let mut driver = Driver::new(Some(""));
    let codes = strings(&["ABCD12345678", "WXYZ98765432"]);
    driver.run(interactor(false).redeem_many(codes)).unwrap();
    assert_eq!(driver.asked.len(), 2 * 37 + 6);
}
