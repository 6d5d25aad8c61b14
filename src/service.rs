use vstd::prelude::*;

use crate::auth::Readiness;
use crate::error::KeycloakError;

verus! {

/// The error of the authenticating middleware: the wrapped service's own
/// error, or a failure to obtain a credential.
#[derive(Debug)]
pub enum ServiceError<E> {
    Service(E),
    Keycloak(KeycloakError),
}

/// The middleware's view of the credential probe. It is not ready while the
/// credential is not; once it is, readiness is up to the wrapped service
/// (`Ready` here means: ask it). A credential failure is reported as such.
pub fn after_auth<E>(auth: Readiness<KeycloakError>) -> (r: Readiness<ServiceError<E>>)
    ensures
        auth is NotReady ==> r is NotReady,
        auth is Ready ==> r is Ready,
        auth matches Readiness::Failed(e) ==> r == Readiness::<ServiceError<E>>::Failed(
            ServiceError::Keycloak(e),
        ),
{
    match auth {
        Readiness::NotReady => Readiness::NotReady,
        Readiness::Ready => Readiness::Ready,
        Readiness::Failed(e) => Readiness::Failed(ServiceError::Keycloak(e)),
    }
}

/// The middleware's readiness once the credential is ready: that of the
/// wrapped service (`None` while it is not ready), its error tagged as such.
pub fn after_inner<E>(inner: Option<Result<(), E>>) -> (r: Readiness<ServiceError<E>>)
    ensures
        inner is None ==> r is NotReady,
        inner matches Some(Ok(_)) ==> r is Ready,
        inner matches Some(Err(e)) ==> r == Readiness::<ServiceError<E>>::Failed(
            ServiceError::Service(e),
        ),
{
    match inner {
        None => Readiness::NotReady,
        Some(Ok(())) => Readiness::Ready,
        Some(Err(e)) => Readiness::Failed(ServiceError::Service(e)),
    }
}

} // verus!
