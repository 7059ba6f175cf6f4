//! Groups, versions and names of the built-in kinds.

use vstd::prelude::*;

use crate::k8s::meta::{ObjectMeta, ObjectMetaView};
use crate::k8s::pod::{ConfigMap, ConfigMapView, Secret, SecretView, Service, ServiceView};
use crate::k8s::workload::{
    CronJob, CronJobView, Deployment, DeploymentView, HTTPRoute, HTTPRouteView,
    HorizontalPodAutoscaler, HorizontalPodAutoscalerView, Ingress, IngressView, Job, JobView,
};
use crate::resource::Resource;

verus! {

impl Resource for Service {
    open spec fn group_name() -> Seq<char> {
        ""@
    }

    open spec fn version_name() -> Seq<char> {
        "v1"@
    }

    open spec fn kind_name() -> Seq<char> {
        "Service"@
    }

    open spec fn plural_name() -> Seq<char> {
        "services"@
    }

    open spec fn metadata(v: ServiceView) -> ObjectMetaView {
        v.metadata
    }

    fn group() -> (r: &'static str) {
        ""
    }

    fn version() -> (r: &'static str) {
        "v1"
    }

    fn kind() -> (r: &'static str) {
        "Service"
    }

    fn plural() -> (r: &'static str) {
        "services"
    }

    fn meta(&self) -> (r: &ObjectMeta) {
        &self.metadata
    }
}

impl Resource for ConfigMap {
    open spec fn group_name() -> Seq<char> {
        ""@
    }

    open spec fn version_name() -> Seq<char> {
        "v1"@
    }

    open spec fn kind_name() -> Seq<char> {
        "ConfigMap"@
    }

    open spec fn plural_name() -> Seq<char> {
        "configmaps"@
    }

    open spec fn metadata(v: ConfigMapView) -> ObjectMetaView {
        v.metadata
    }

    fn group() -> (r: &'static str) {
        ""
    }

    fn version() -> (r: &'static str) {
        "v1"
    }

    fn kind() -> (r: &'static str) {
        "ConfigMap"
    }

    fn plural() -> (r: &'static str) {
        "configmaps"
    }

    fn meta(&self) -> (r: &ObjectMeta) {
        &self.metadata
    }
}

impl Resource for Secret {
    open spec fn group_name() -> Seq<char> {
        ""@
    }

    open spec fn version_name() -> Seq<char> {
        "v1"@
    }

    open spec fn kind_name() -> Seq<char> {
        "Secret"@
    }

    open spec fn plural_name() -> Seq<char> {
        "secrets"@
    }

    open spec fn metadata(v: SecretView) -> ObjectMetaView {
        v.metadata
    }

    fn group() -> (r: &'static str) {
        ""
    }

    fn version() -> (r: &'static str) {
        "v1"
    }

    fn kind() -> (r: &'static str) {
        "Secret"
    }

    fn plural() -> (r: &'static str) {
        "secrets"
    }

    fn meta(&self) -> (r: &ObjectMeta) {
        &self.metadata
    }
}

impl Resource for Deployment {
    open spec fn group_name() -> Seq<char> {
        "apps"@
    }

    open spec fn version_name() -> Seq<char> {
        "v1"@
    }

    open spec fn kind_name() -> Seq<char> {
        "Deployment"@
    }

    open spec fn plural_name() -> Seq<char> {
        "deployments"@
    }

    open spec fn metadata(v: DeploymentView) -> ObjectMetaView {
        v.metadata
    }

    fn group() -> (r: &'static str) {
        "apps"
    }

    fn version() -> (r: &'static str) {
        "v1"
    }

    fn kind() -> (r: &'static str) {
        "Deployment"
    }

    fn plural() -> (r: &'static str) {
        "deployments"
    }

    fn meta(&self) -> (r: &ObjectMeta) {
        &self.metadata
    }
}

impl Resource for Job {
    open spec fn group_name() -> Seq<char> {
        "batch"@
    }

    open spec fn version_name() -> Seq<char> {
        "v1"@
    }

    open spec fn kind_name() -> Seq<char> {
        "Job"@
    }

    open spec fn plural_name() -> Seq<char> {
        "jobs"@
    }

    open spec fn metadata(v: JobView) -> ObjectMetaView {
        v.metadata
    }

    fn group() -> (r: &'static str) {
        "batch"
    }

    fn version() -> (r: &'static str) {
        "v1"
    }

    fn kind() -> (r: &'static str) {
        "Job"
    }

    fn plural() -> (r: &'static str) {
        "jobs"
    }

    fn meta(&self) -> (r: &ObjectMeta) {
        &self.metadata
    }
}

impl Resource for CronJob {
    open spec fn group_name() -> Seq<char> {
        "batch"@
    }

    open spec fn version_name() -> Seq<char> {
        "v1"@
    }

    open spec fn kind_name() -> Seq<char> {
        "CronJob"@
    }

    open spec fn plural_name() -> Seq<char> {
        "cronjobs"@
    }

    open spec fn metadata(v: CronJobView) -> ObjectMetaView {
        v.metadata
    }

    fn group() -> (r: &'static str) {
        "batch"
    }

    fn version() -> (r: &'static str) {
        "v1"
    }

    fn kind() -> (r: &'static str) {
        "CronJob"
    }

    fn plural() -> (r: &'static str) {
        "cronjobs"
    }

    fn meta(&self) -> (r: &ObjectMeta) {
        &self.metadata
    }
}

impl Resource for HorizontalPodAutoscaler {
    open spec fn group_name() -> Seq<char> {
        "autoscaling"@
    }

    open spec fn version_name() -> Seq<char> {
        "v2"@
    }

    open spec fn kind_name() -> Seq<char> {
        "HorizontalPodAutoscaler"@
    }

    open spec fn plural_name() -> Seq<char> {
        "horizontalpodautoscalers"@
    }

    open spec fn metadata(v: HorizontalPodAutoscalerView) -> ObjectMetaView {
        v.metadata
    }

    fn group() -> (r: &'static str) {
        "autoscaling"
    }

    fn version() -> (r: &'static str) {
        "v2"
    }

    fn kind() -> (r: &'static str) {
        "HorizontalPodAutoscaler"
    }

    fn plural() -> (r: &'static str) {
        "horizontalpodautoscalers"
    }

    fn meta(&self) -> (r: &ObjectMeta) {
        &self.metadata
    }
}

impl Resource for Ingress {
    open spec fn group_name() -> Seq<char> {
        "networking.k8s.io"@
    }

    open spec fn version_name() -> Seq<char> {
        "v1"@
    }

    open spec fn kind_name() -> Seq<char> {
        "Ingress"@
    }

    open spec fn plural_name() -> Seq<char> {
        "ingresses"@
    }

    open spec fn metadata(v: IngressView) -> ObjectMetaView {
        v.metadata
    }

    fn group() -> (r: &'static str) {
        "networking.k8s.io"
    }

    fn version() -> (r: &'static str) {
        "v1"
    }

    fn kind() -> (r: &'static str) {
        "Ingress"
    }

    fn plural() -> (r: &'static str) {
        "ingresses"
    }

    fn meta(&self) -> (r: &ObjectMeta) {
        &self.metadata
    }
}

impl Resource for HTTPRoute {
    open spec fn group_name() -> Seq<char> {
        "gateway.networking.k8s.io"@
    }

    open spec fn version_name() -> Seq<char> {
        "v1"@
    }

    open spec fn kind_name() -> Seq<char> {
        "HTTPRoute"@
    }

    open spec fn plural_name() -> Seq<char> {
        "httproutes"@
    }

    open spec fn metadata(v: HTTPRouteView) -> ObjectMetaView {
        v.metadata
    }

    fn group() -> (r: &'static str) {
        "gateway.networking.k8s.io"
    }

    fn version() -> (r: &'static str) {
        "v1"
    }

    fn kind() -> (r: &'static str) {
        "HTTPRoute"
    }

    fn plural() -> (r: &'static str) {
        "httproutes"
    }

    fn meta(&self) -> (r: &ObjectMeta) {
        &self.metadata
    }
}

} // verus!
