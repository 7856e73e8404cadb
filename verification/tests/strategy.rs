use ulexec::platform::Platform;
use ulexec::strategy::{select_strategy, Strategy};

#[test]
fn platforms_differ_in_what_they_can_do() {
    assert!(Platform::Linux.can_replace_image());
    assert!(!Platform::Windows.can_replace_image());
}

#[test]
fn every_combination_has_the_technique_of_the_table() {
    let both = [false, true];
    let mut seen = 0;
    for platform in [Platform::Linux, Platform::Windows] {
        for is_child in both {
            for relocatable in both {
                for forced in both {
                    for on_disk in both {
                        let expected = match (platform, is_child, relocatable, forced, on_disk) {
                            (Platform::Windows, false, _, _, _) => Strategy::SpawnChild,
                            (Platform::Windows, true, _, _, _) => Strategy::InProcess,
                            (Platform::Linux, _, false, _, _) => Strategy::AnonymousMemory,
                            (Platform::Linux, _, true, true, _) => Strategy::AnonymousMemory,
                            (Platform::Linux, _, true, false, true) => Strategy::ReflectivePath,
                            (Platform::Linux, _, true, false, false) => {
                                Strategy::ReflectiveDescriptor
                            },
                        };
                        let chosen = select_strategy(platform, is_child, relocatable, forced, on_disk);
                        assert_eq!(chosen, expected);
                        assert_eq!(
                            select_strategy(platform, is_child, relocatable, forced, on_disk),
                            chosen
                        );
                        seen += 1;
                    }
                }
            }
        }
    }
    assert_eq!(seen, 32);
}

#[test]
fn a_platform_without_replacement_spawns_once() {
    assert_eq!(
        select_strategy(Platform::Windows, false, true, false, true),
        Strategy::SpawnChild
    );
    assert_eq!(
        select_strategy(Platform::Windows, true, true, false, true),
        Strategy::InProcess
    );
}

#[test]
fn a_fixed_image_goes_through_anonymous_memory() {
    assert_eq!(
        select_strategy(Platform::Linux, false, false, false, true),
        Strategy::AnonymousMemory
    );
}

#[test]
fn a_forced_launch_goes_through_anonymous_memory() {
    assert_eq!(
        select_strategy(Platform::Linux, false, true, true, true),
        Strategy::AnonymousMemory
    );
}

#[test]
fn a_relocatable_image_is_replaced_by_path() {
    assert_eq!(
        select_strategy(Platform::Linux, false, true, false, true),
        Strategy::ReflectivePath
    );
    assert_eq!(
        select_strategy(Platform::Linux, true, true, false, false),
        Strategy::ReflectiveDescriptor
    );
}
