use hookline::contract::ResolveData;
use hookline::driver::Payload;
use hookline::loan::Lent;
use hookline::loan::Loans;

#[test]
fn compilation_is_lent_to_one_call_alone() {
    let mut loans = Loans::new();
    assert!(loans.is_free(Lent::Compilation));
    assert!(loans.checkout(Lent::Compilation));
    assert!(!loans.is_free(Lent::Compilation));
    assert!(!loans.checkout(Lent::Compilation));
    assert!(!loans.checkout(Lent::Module(0)));
    loans.give_back(Lent::Compilation);
    assert!(loans.checkout(Lent::Module(0)));
}

#[test]
fn modules_are_lent_side_by_side_but_not_twice() {
    let mut loans = Loans::new();
    assert!(loans.checkout(Lent::Module(3)));
    assert!(loans.checkout(Lent::Module(4)));
    assert!(!loans.checkout(Lent::Module(3)));
    assert!(!loans.checkout(Lent::Compilation));
    loans.give_back(Lent::Module(3));
    assert!(!loans.checkout(Lent::Compilation));
    assert!(loans.checkout(Lent::Module(3)));
    loans.give_back(Lent::Module(3));
    loans.give_back(Lent::Module(4));
    loans.give_back(Lent::Module(9));
    assert!(loans.checkout(Lent::Compilation));
}

#[test]
fn payloads_say_what_they_lend() {
    assert_eq!(Payload::Nothing.lends(), None);
    assert_eq!(Payload::Compilation.lends(), Some(Lent::Compilation));
    assert_eq!(Payload::Module(2).lends(), Some(Lent::Module(2)));
    let data = ResolveData::new("./a".to_string(), "/src".to_string());
    assert_eq!(Payload::Resolved(5, data.clone()).lends(), Some(Lent::Module(5)));
    assert_eq!(Payload::Resolve(data).lends(), None);
    assert_eq!(Payload::ChunkAsset(1).lends(), None);
    assert_eq!(Payload::AssetEmitted(1).lends(), None);
    let run = Payload::ExecuteModule { entry: "./a".to_string(), runtime_modules: vec![] };
    assert_eq!(run.lends(), None);
}
