use wintrack::compose::{
    boot_markdown, compose_boot, compose_elapsed, compose_shutdown, scheduled_markdown,
    shutdown_markdown, u64_to_dec,
};

#[test]
fn decimal_rendering_is_exact() {
    assert_eq!(u64_to_dec(0), "0");
    assert_eq!(u64_to_dec(7), "7");
    assert_eq!(u64_to_dec(10), "10");
    assert_eq!(u64_to_dec(105), "105");
    assert_eq!(u64_to_dec(18_446_744_073_709_551_615), "18446744073709551615");
}

#[test]
fn boot_message_embeds_the_timestamp() {
    let m = compose_boot("2024-05-06 07:08:09");
    assert_eq!(m, "## 🖥️ 电脑已开机\\n\\n**时间**: 2024-05-06 07:08:09\\n\\n*WinTrack 自动记录*");
}

#[test]
fn shutdown_message_embeds_the_timestamp() {
    let m = compose_shutdown("2024-05-06 07:08:09");
    assert_eq!(m, "## 🔌 电脑已关机\\n\\n**时间**: 2024-05-06 07:08:09\\n\\n*WinTrack 自动记录*");
}

#[test]
fn elapsed_message_embeds_timestamp_and_duration() {
    let m = compose_elapsed("2024-05-06 07:08:09", 1, 0);
    assert_eq!(
        m,
        "## ⏰ 定时提醒\\n\\n**时间**: 2024-05-06 07:08:09\\n\\n**距离开机已过**: 1 小时 0 分钟\\n\\n*WinTrack 定时提醒*"
    );
    let m2 = compose_elapsed("t", 12, 34);
    assert!(m2.contains("12 小时 34 分钟"));
}

#[test]
fn timestamp_shape_checker_admits_clock_readings_only() {
    assert!(wintrack::compose::is_timestamp_text("2024-05-06 07:08:09"));
    // chrono prefixes a sign to years outside four digits.
    assert!(wintrack::compose::is_timestamp_text("+10000-01-01 00:00:00"));
    assert!(!wintrack::compose::is_timestamp_text("2024-05-06"));
    assert!(!wintrack::compose::is_timestamp_text("2024-05-06T07:08:09"));
    assert!(!wintrack::compose::is_timestamp_text(""));
}

#[test]
fn stamped_messages_carry_a_plausible_clock_reading() {
    // The wall-clock text comes from the system clock; check the frame.
    let b = boot_markdown();
    assert!(b.starts_with("## 🖥️ 电脑已开机\\n\\n**时间**: "));
    assert!(b.ends_with("*WinTrack 自动记录*"));
    let s = shutdown_markdown();
    assert!(s.starts_with("## 🔌 电脑已关机"));
    let e = scheduled_markdown(2, 5);
    assert!(e.contains("2 小时 5 分钟"));
    // The timestamp section has the fixed format length: "YYYY-MM-DD HH:MM:SS".
    let after = &b["## 🖥️ 电脑已开机\\n\\n**时间**: ".len()..];
    let stamp = &after[..after.find("\\n").unwrap()];
    assert_eq!(stamp.len(), 19);
    assert_eq!(stamp.as_bytes()[4], b'-');
    assert_eq!(stamp.as_bytes()[10], b' ');
    assert_eq!(stamp.as_bytes()[13], b':');
}
