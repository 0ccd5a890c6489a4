use upset::package_manager::{PackageManagerFactory, PackageManagerFactoryImpl};

#[test]
fn get_package_manager_returns_none_for_empty_string() {
    // Arrange
    let name = String::default();
    let source = "source".to_string();

    // Act
    let sut = PackageManagerFactoryImpl::new();
    let result = sut.get_package_manager(&name, &source);

    // Assert
    assert!(result.is_none());
}

#[test]
fn get_package_manager_returns_none_for_unsupported_package_manager() {
    // Arrange
    let name = "not-supported-package-manager".to_string();
    let source = "source".to_string();

    // Act
    let sut = PackageManagerFactoryImpl::new();
    let result = sut.get_package_manager(&name, &source);

    // Assert
    assert!(result.is_none());
}

#[test]
fn get_package_manager_returns_winget_for_winget_package_manager() {
    // Arrange
    let name = "winget".to_string();
    let source = "source".to_string();

    // Act
    let sut = PackageManagerFactoryImpl::new();
    let result = sut.get_package_manager(&name, &source);

    // Assert
    assert!(result.is_some());
    assert_eq!(result.unwrap().source, "source");
}
