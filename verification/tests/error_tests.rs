use marktext_ru_patcher::Error;

#[test]
fn messages() {
    assert_eq!(
        Error::MarkTextNotFound("x".to_string()).message(),
        "MarkText не найден по пути: x"
    );
    assert_eq!(
        Error::NpxNotFound.message(),
        "Node.js (npx) не найден в PATH. Установите Node.js: https://nodejs.org"
    );
    assert_eq!(Error::AsarFailed("a".to_string()).message(), "Ошибка asar: a");
    assert_eq!(Error::PatchFailed("p".to_string()).message(), "Ошибка патча: p");
    assert_eq!(Error::InvalidJson("j".to_string()).message(), "Ошибка JSON: j");
}

#[test]
fn io_message() {
    let e = std::io::Error::new(std::io::ErrorKind::NotFound, "нет файла");
    assert_eq!(Error::Io(e).message(), "Ошибка ввода/вывода: нет файла");
}

#[test]
fn from_io_error() {
    let e: Error = std::io::Error::new(std::io::ErrorKind::Other, "z").into();
    assert!(matches!(e, Error::Io(_)));
}
